//! Classified failures of tool executions.

use vstd::prelude::*;
use vstd::string::*;

use crate::client::{McpClientError, McpClientErrorView};
use crate::duplicate::Duplicate;
use crate::model::{ServiceError, ServiceErrorView};
use crate::output::{ContentView, ToolOutput};
use crate::requests::{McpArgumentError, McpArgumentErrorView};

verus! {

/// What kind of failure a tool execution met.
#[derive(Debug, Clone, Copy, PartialEq, Eq, Structural)]
#[non_exhaustive]
pub enum ToolErrorKind {
    /// The arguments cannot be used.
    InvalidArgs,
    /// What the call refers to does not exist.
    NotFound,
    /// A time limit ran out.
    Timeout,
    /// The work was cancelled.
    Cancelled,
    /// The connection failed.
    Network,
    /// The service behind the tool failed or misbehaved.
    Provider,
    /// The service refuses further calls for now.
    RateLimited,
    /// Anything else.
    Other,
}

/// What a failure of a tool execution came from.
#[derive(Debug)]
pub enum ErrorCause {
    /// The MCP client failed.
    Client(McpClientError),
    /// A request to the server got no usable answer.
    Service(ServiceError),
    /// The arguments cannot be sent.
    Arguments(McpArgumentError),
    /// JSON could not be read or written, by the rendering of that failure.
    Json(String),
    /// A timestamp could not be read, by the rendering of that failure.
    Timestamp(String),
    /// An integer does not fit its type.
    IntegerRange,
}

/// The model of an [`ErrorCause`].
#[verifier::ext_equal]
pub enum ErrorCauseView {
    /// The MCP client failed.
    Client(McpClientErrorView),
    /// A request to the server got no usable answer.
    Service(ServiceErrorView),
    /// The arguments cannot be sent.
    Arguments(McpArgumentErrorView),
    /// JSON could not be read or written, by the rendering of that failure.
    Json(Seq<char>),
    /// A timestamp could not be read, by the rendering of that failure.
    Timestamp(Seq<char>),
    /// An integer does not fit its type.
    IntegerRange,
}

impl DeepView for ErrorCause {
    type V = ErrorCauseView;

    open spec fn deep_view(&self) -> ErrorCauseView {
        match self {
            ErrorCause::Client(error) => ErrorCauseView::Client(error.deep_view()),
            ErrorCause::Service(error) => ErrorCauseView::Service(error.deep_view()),
            ErrorCause::Arguments(error) => ErrorCauseView::Arguments(error.deep_view()),
            ErrorCause::Json(message) => ErrorCauseView::Json(message@),
            ErrorCause::Timestamp(message) => ErrorCauseView::Timestamp(message@),
            ErrorCause::IntegerRange => ErrorCauseView::IntegerRange,
        }
    }
}

impl Duplicate for ErrorCause {
    fn duplicate(&self) -> (copy: Self) {
        match self {
            ErrorCause::Client(error) => ErrorCause::Client(error.duplicate()),
            ErrorCause::Service(error) => ErrorCause::Service(error.duplicate()),
            ErrorCause::Arguments(error) => ErrorCause::Arguments(error.duplicate()),
            ErrorCause::Json(message) => ErrorCause::Json(message.clone()),
            ErrorCause::Timestamp(message) => ErrorCause::Timestamp(message.clone()),
            ErrorCause::IntegerRange => ErrorCause::IntegerRange,
        }
    }
}

impl Clone for ErrorCause {
    fn clone(&self) -> (copy: Self)
        ensures
            copy.deep_view() == self.deep_view(),
    {
        self.duplicate()
    }
}

/// A classified failure of a tool execution.
#[derive(Debug)]
pub struct ToolExecutionError {
    /// The kind of failure.
    pub kind: ToolErrorKind,
    /// What went wrong, for people.
    pub message: String,
    /// A stable identifier of the failure, for programs.
    pub code: Option<String>,
    /// Whether another try may succeed, where that is known.
    pub retryable: Option<bool>,
    /// What the model is shown in place of the message.
    pub model_output: Option<ToolOutput>,
    /// What the failure came from, where that is known.
    pub cause: Option<ErrorCause>,
}

/// The model of a failure.
#[verifier::ext_equal]
pub struct ErrorView {
    /// The kind of failure.
    pub kind: ToolErrorKind,
    /// What went wrong.
    pub message: Seq<char>,
    /// The stable identifier.
    pub code: Option<Seq<char>>,
    /// Whether another try may succeed.
    pub retryable: Option<bool>,
    /// What the model is shown.
    pub model_output: Option<Seq<ContentView>>,
    /// What the failure came from.
    pub cause: Option<ErrorCauseView>,
}

/// A failure with nothing but its kind and message.
pub open spec fn plain_error(kind: ToolErrorKind, message: Seq<char>) -> ErrorView {
    ErrorView { kind, message, code: None, retryable: None, model_output: None, cause: None }
}

/// A failure with a stable identifier that no retry can mend.
pub open spec fn final_error(kind: ToolErrorKind, message: Seq<char>, code: Seq<char>) -> ErrorView {
    ErrorView {
        kind,
        message,
        code: Some(code),
        retryable: Some(false),
        model_output: None,
        cause: None,
    }
}

impl ErrorView {
    /// The same failure, showing `output` to the model.
    pub open spec fn showing(self, output: Seq<ContentView>) -> ErrorView {
        ErrorView { model_output: Some(output), ..self }
    }

    /// The same failure, with what it came from.
    pub open spec fn caused_by(self, cause: ErrorCauseView) -> ErrorView {
        ErrorView { cause: Some(cause), ..self }
    }

    /// What the model is shown of the failure.
    pub open spec fn presented(self) -> Seq<ContentView> {
        match self.model_output {
            Some(output) => output,
            None => seq![ContentView::Text(self.message)],
        }
    }
}

impl DeepView for ToolExecutionError {
    type V = ErrorView;

    open spec fn deep_view(&self) -> ErrorView {
        ErrorView {
            kind: self.kind,
            message: self.message@,
            code: self.code.deep_view(),
            retryable: self.retryable,
            model_output: self.model_output.deep_view(),
            cause: self.cause.deep_view(),
        }
    }
}

impl Duplicate for ToolExecutionError {
    fn duplicate(&self) -> (copy: Self) {
        ToolExecutionError {
            kind: self.kind,
            message: self.message.clone(),
            code: self.code.duplicate(),
            retryable: self.retryable,
            model_output: self.model_output.duplicate(),
            cause: self.cause.duplicate(),
        }
    }
}

impl Clone for ToolExecutionError {
    fn clone(&self) -> (copy: Self)
        ensures
            copy.deep_view() == self.deep_view(),
    {
        self.duplicate()
    }
}

impl ToolExecutionError {
    /// A failure of the given kind.
    pub fn new(kind: ToolErrorKind, message: String) -> (error: ToolExecutionError)
        ensures
            error.deep_view() == plain_error(kind, message@),
    {
        ToolExecutionError {
            kind,
            message,
            code: None,
            retryable: None,
            model_output: None,
            cause: None,
        }
    }

    /// A failure of kind [`ToolErrorKind::InvalidArgs`].
    pub fn invalid_args(message: String) -> (error: ToolExecutionError)
        ensures
            error.deep_view() == plain_error(ToolErrorKind::InvalidArgs, message@),
    {
        ToolExecutionError::new(ToolErrorKind::InvalidArgs, message)
    }

    /// A failure of kind [`ToolErrorKind::NotFound`].
    pub fn not_found(message: String) -> (error: ToolExecutionError)
        ensures
            error.deep_view() == plain_error(ToolErrorKind::NotFound, message@),
    {
        ToolExecutionError::new(ToolErrorKind::NotFound, message)
    }

    /// A failure of kind [`ToolErrorKind::Timeout`].
    pub fn timeout(message: String) -> (error: ToolExecutionError)
        ensures
            error.deep_view() == plain_error(ToolErrorKind::Timeout, message@),
    {
        ToolExecutionError::new(ToolErrorKind::Timeout, message)
    }

    /// A failure of kind [`ToolErrorKind::Cancelled`].
    pub fn cancelled(message: String) -> (error: ToolExecutionError)
        ensures
            error.deep_view() == plain_error(ToolErrorKind::Cancelled, message@),
    {
        ToolExecutionError::new(ToolErrorKind::Cancelled, message)
    }

    /// A failure of kind [`ToolErrorKind::Network`].
    pub fn network(message: String) -> (error: ToolExecutionError)
        ensures
            error.deep_view() == plain_error(ToolErrorKind::Network, message@),
    {
        ToolExecutionError::new(ToolErrorKind::Network, message)
    }

    /// A failure of kind [`ToolErrorKind::Provider`].
    pub fn provider(message: String) -> (error: ToolExecutionError)
        ensures
            error.deep_view() == plain_error(ToolErrorKind::Provider, message@),
    {
        ToolExecutionError::new(ToolErrorKind::Provider, message)
    }

    /// A failure of kind [`ToolErrorKind::RateLimited`].
    pub fn rate_limited(message: String) -> (error: ToolExecutionError)
        ensures
            error.deep_view() == plain_error(ToolErrorKind::RateLimited, message@),
    {
        ToolExecutionError::new(ToolErrorKind::RateLimited, message)
    }

    /// A failure of kind [`ToolErrorKind::Other`].
    pub fn other(message: String) -> (error: ToolExecutionError)
        ensures
            error.deep_view() == plain_error(ToolErrorKind::Other, message@),
    {
        ToolExecutionError::new(ToolErrorKind::Other, message)
    }

    /// The same failure with a stable identifier.
    pub fn with_code(self, code: &str) -> (error: ToolExecutionError)
        ensures
            error.deep_view() == (ErrorView { code: Some(code@), ..self.deep_view() }),
    {
        let mut error = self;
        error.code = Some(code.to_owned());
        error
    }

    /// The same failure with a word on whether another try may succeed.
    pub fn with_retryable(self, retryable: bool) -> (error: ToolExecutionError)
        ensures
            error.deep_view() == (ErrorView { retryable: Some(retryable), ..self.deep_view() }),
    {
        let mut error = self;
        error.retryable = Some(retryable);
        error
    }

    /// The same failure, showing `output` to the model.
    pub fn with_model_output(self, output: ToolOutput) -> (error: ToolExecutionError)
        ensures
            error.deep_view() == self.deep_view().showing(output.deep_view()),
    {
        let mut error = self;
        error.model_output = Some(output);
        error
    }

    /// The same failure, with what it came from.
    pub fn with_source(self, cause: ErrorCause) -> (error: ToolExecutionError)
        ensures
            error.deep_view() == self.deep_view().caused_by(cause.deep_view()),
    {
        let mut error = self;
        error.cause = Some(cause);
        error
    }

    /// The kind of failure.
    pub fn kind(&self) -> (kind: ToolErrorKind)
        ensures
            kind == self.deep_view().kind,
    {
        self.kind
    }

    /// What went wrong.
    pub fn message(&self) -> (message: &str)
        ensures
            message@ == self.deep_view().message,
    {
        self.message.as_str()
    }

    /// The stable identifier, where there is one.
    pub fn code(&self) -> (code: Option<&str>)
        ensures
            match code {
                Some(text) => self.deep_view().code == Some(text@),
                None => self.deep_view().code is None,
            },
    {
        match &self.code {
            Some(text) => Some(text.as_str()),
            None => None,
        }
    }

    /// Whether another try may succeed, where that is known.
    pub fn retryable(&self) -> (retryable: Option<bool>)
        ensures
            retryable == self.deep_view().retryable,
    {
        self.retryable
    }

    /// What the failure came from, where that is known.
    pub fn source(&self) -> (cause: Option<&ErrorCause>)
        ensures
            match cause {
                Some(found) => self.deep_view().cause == Some(found.deep_view()),
                None => self.deep_view().cause is None,
            },
    {
        match &self.cause {
            Some(found) => Some(found),
            None => None,
        }
    }

    /// The message as an owned string.
    pub fn to_string(&self) -> (text: String)
        ensures
            text@ == self.deep_view().message,
    {
        self.message.clone()
    }
}

/// A failure carries its kind and its message and nothing that was not given to it; each addition
/// changes one thing and keeps the rest. The model is shown what was set for it, and else the
/// message.
pub proof fn failures_carry_what_they_were_given(
    kind: ToolErrorKind,
    message: Seq<char>,
    code: Seq<char>,
    output: Seq<ContentView>,
    cause: ErrorCauseView,
    error: ErrorView,
)
    ensures
        ({
            let plain = plain_error(kind, message);
            &&& plain.kind == kind && plain.message == message
            &&& plain.code is None && plain.retryable is None
            &&& plain.model_output is None && plain.cause is None
        }),
        ({
            let last = final_error(kind, message, code);
            &&& last.kind == kind && last.message == message
            &&& last.code == Some(code) && last.retryable == Some(false)
            &&& last.model_output is None && last.cause is None
        }),
        ({
            let after = error.showing(output).caused_by(cause);
            &&& after.kind == error.kind && after.message == error.message
            &&& after.code == error.code && after.retryable == error.retryable
            &&& after.model_output == Some(output) && after.cause == Some(cause)
            &&& error.showing(output).cause == error.cause
            &&& error.caused_by(cause).model_output == error.model_output
        }),
        error.showing(output).presented() == output,
        error.model_output is None ==> error.presented() == seq![ContentView::Text(error.message)],
{
}

} // verus!

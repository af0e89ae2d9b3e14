//! Interactive input: answering what a server asks the user.

use vstd::prelude::*;
use vstd::string::*;

use crate::config::{
    ElicitationCapability, ElicitationCapabilityView, FormElicitationCapability,
    FormElicitationCapabilityView,
};
use crate::json::{serde_json_member, serde_json_only_item, serde_json_string, Json};

verus! {

/// `_meta` key that names the task a request belongs to.
pub const RELATED_TASK_META_KEY: &'static str = "io.modelcontextprotocol/related-task";

/// What a user did with an elicitation.
#[derive(Debug, Clone, Copy, PartialEq, Eq, Structural)]
pub enum ElicitationAction {
    /// The user answered.
    Accept,
    /// The user refused.
    Decline,
    /// The user left without a decision.
    Cancel,
}

/// The answer to an elicitation.
#[derive(Debug)]
pub struct ElicitResult {
    /// What the user did.
    pub action: ElicitationAction,
    /// The content of the answer.
    pub content: Option<Json>,
}

/// A JSON-RPC error.
#[derive(Debug)]
pub struct ErrorData {
    /// The error code.
    pub code: i32,
    /// The message.
    pub message: String,
    /// Further data.
    pub data: Option<Json>,
}

/// Support for forms alone, without schema validation.
pub open spec fn form_only() -> ElicitationCapabilityView {
    ElicitationCapabilityView {
        form: Some(FormElicitationCapabilityView { schema_validation: None }),
        url: None,
    }
}

/// Answers MCP elicitation requests. Handlers should be fail-closed: where input cannot be
/// collected, they decline.
pub trait McpElicitationHandler {
    /// Answer one elicitation request, given by its parameters as a JSON object.
    fn elicit(&self, request: Json) -> Result<ElicitResult, ErrorData>;

    /// The elicitation capability advertised to servers. Forms alone, without schema validation,
    /// unless a handler says otherwise.
    fn capability(&self) -> (capability: ElicitationCapability)
        default_ensures
            capability.deep_view() == form_only(),
    {
        ElicitationCapability {
            form: Some(FormElicitationCapability { schema_validation: None }),
            url: None,
        }
    }

    /// A page elicitation completed out of band. Nothing happens unless a handler says otherwise.
    fn url_elicitation_complete(&self, params: &Json) {
    }
}

/// The task that a request belongs to, as its metadata tells.
pub open spec fn related_task(meta: Option<Seq<char>>) -> Option<Seq<char>> {
    match meta {
        Some(meta) => match serde_json_member(meta, RELATED_TASK_META_KEY@) {
            Some(value) => match serde_json_member(value, "taskId"@) {
                Some(id) => serde_json_string(id),
                None => serde_json_only_item(value),
            },
            None => None,
        },
        None => None,
    }
}

/// The id of the task that a request belongs to, from the request's `_meta`. `None` where the
/// metadata is absent, names no task, or names one in no readable form. An object with a `taskId`
/// and an array of the id alone can be read.
pub fn related_task_id(meta: Option<&Json>) -> (id: Option<String>)
    ensures
        id.deep_view() == related_task(
            match meta {
                Some(meta) => Some(meta.deep_view()),
                None => None,
            },
        ),
{
    match meta {
        Some(meta) => match meta.member(RELATED_TASK_META_KEY) {
            Some(value) => match value.member("taskId") {
                Some(id) => id.as_string(),
                None => value.only_item_string(),
            },
            None => None,
        },
        None => None,
    }
}

/// The related task is the one that the metadata names under its key: by the string under `taskId`,
/// or by the string that stands alone in an array. Metadata that names none relates to none.
pub proof fn related_tasks_are_named_by_the_metadata(meta: Seq<char>)
    ensures
        related_task(None) is None,
        match serde_json_member(meta, "io.modelcontextprotocol/related-task"@) {
            None => related_task(Some(meta)) is None,
            Some(value) => match serde_json_member(value, "taskId"@) {
                Some(id) => related_task(Some(meta)) == serde_json_string(id),
                None => related_task(Some(meta)) == serde_json_only_item(value),
            },
        },
{
}

/// Unless a handler says otherwise, forms are supported, without schema validation, and pages are
/// not.
pub proof fn forms_are_supported_by_default()
    ensures
        form_only().form matches Some(form) && form.schema_validation is None,
        form_only().url is None,
{
}

} // verus!

use rig_tasks::config::{Implementation, McpClientConfig, McpInputCapabilities};
use rig_tasks::elicitation::{
    related_task_id, ElicitResult, ElicitationAction, ErrorData, McpElicitationHandler,
    RELATED_TASK_META_KEY,
};
use rig_tasks::handler::McpClientHandler;
use rig_tasks::json::Json;

struct DeclineAll;

impl McpElicitationHandler for DeclineAll {
    fn elicit(&self, _request: Json) -> Result<ElicitResult, ErrorData> {
        Ok(ElicitResult {
            action: ElicitationAction::Decline,
            content: None,
        })
    }
}

fn meta(value: &str) -> Json {
    Json::parse(&format!("{{\"{RELATED_TASK_META_KEY}\": {value}}}")).expect("meta")
}

#[test]
fn related_task_id_parses_the_meta_key() {
    assert_eq!(
        related_task_id(Some(&meta("{\"taskId\": \"task-7\"}"))).as_deref(),
        Some("task-7")
    );
}

#[test]
fn related_task_id_is_none_for_absent_or_malformed_meta() {
    assert_eq!(related_task_id(None), None);

    let empty = Json::empty_object();
    assert_eq!(related_task_id(Some(&empty)), None);

    assert_eq!(related_task_id(Some(&meta("\"not an object\""))), None);
}

#[test]
fn related_task_id_reads_an_array_of_the_id_alone() {
    assert_eq!(
        related_task_id(Some(&meta("[\"task-7\"]"))).as_deref(),
        Some("task-7")
    );
    assert_eq!(related_task_id(Some(&meta("[\"task-7\", 1]"))), None);
    assert_eq!(related_task_id(Some(&meta("{\"taskId\": 7}"))), None);
}

#[test]
fn default_capability_is_form_only() {
    let capability = DeclineAll.capability();
    assert!(capability.form.is_some(), "form mode must be declared");
    assert!(capability.url.is_none(), "URL mode is opt-in");
    assert_eq!(
        capability.form.and_then(|form| form.schema_validation),
        None,
        "rig does not claim schema validation"
    );
}

#[test]
fn handlers_decline_and_ignore_completions() {
    let answer = DeclineAll
        .elicit(Json::empty_object())
        .expect("an answer");
    assert_eq!(answer.action, ElicitationAction::Decline);
    DeclineAll.url_elicitation_complete(&Json::empty_object());
}

#[test]
fn get_info_declares_elicitation_capability() {
    let identity = || Implementation::new("client".to_owned(), "1".to_owned());
    let bare = McpClientHandler::new(McpClientConfig::new(identity()));
    assert!(
        bare.get_info().capabilities.elicitation.is_none(),
        "no handler ⇒ no capability"
    );

    let with_handler = McpClientHandler::new(McpClientConfig::new(identity()).with_input_capabilities(
        McpInputCapabilities::default().with_elicitation(DeclineAll.capability()),
    ));
    let capability = with_handler
        .get_info()
        .capabilities
        .elicitation
        .expect("registered handler must be advertised");
    assert!(capability.form.is_some(), "default capability is form-mode");
    assert!(capability.url.is_none());
}

use rig_tasks::client::McpClientState;
use rig_tasks::content::decode_call_result;
use rig_tasks::deferred::{
    DeferredToolState, InputResponse, InputResponses, ToolExecution,
};
use rig_tasks::duration::Duration;
use rig_tasks::error::{ErrorCause, ToolErrorKind, ToolExecutionError};
use rig_tasks::json::Json;
use rig_tasks::mocks::{MockTaskState, MockTaskTool};
use rig_tasks::model::{
    CallToolResponse, CreateTaskResult, GetTaskResult, InputCategory, InputRequestEntry,
    ServiceError, Task, TaskPayload, TaskStatus,
};
use rig_tasks::output::{ImageMediaType, ToolOutput, ToolResultContent};
use rig_tasks::requests::McpArgumentError;
use rig_tasks::result::{ToolContext, ToolResult};
use rig_tasks::status::ToolTaskStatus;
use rig_tasks::string_map::StringMap;
use rig_tasks::task::{
    DispatchMode, McpTaskPolicy, TaskSupport, ToolDispatch, ToolTaskHandle,
};
use rig_tasks::task_driver::{
    after_request, McpTaskDriver, PollStep, PollWake, TaskRequestStep,
};
use rig_tasks::task_handle::{server_key, McpTaskHandle, TaskStatusUpdate};
use rig_tasks::tool::{ExecuteStep, McpTool};
use rig_tasks::wait::{WaitAction, WaitEvent};
use rmcp::model::{CallToolResult, ContentBlock};

const CREATED_MS: i64 = 1_767_225_600_000;

fn value(text: &str) -> serde_json::Value {
    serde_json::from_str(text).expect("fixture JSON")
}

fn tool() -> McpTool {
    McpTool::from_mcp_server("fixture_tool".to_owned(), None, Json::empty_object())
}

fn client() -> McpClientState {
    McpClientState::new("mcp:test".to_owned(), 10)
}

fn at(secs: u64) -> Duration {
    Duration::from_secs(secs)
}

fn task(status: TaskStatus) -> Task {
    Task {
        task_id: "task-1".to_owned(),
        status,
        status_message: None,
        created_at: "2026-01-01T00:00:00Z".to_owned(),
        last_updated_at: "2026-01-01T00:00:00Z".to_owned(),
        ttl_ms: Some(60_000),
        poll_interval_ms: Some(100),
    }
}

/// Calls the fixture tool, whose server answers with `answer`.
fn execute(answer: &CallToolResult, context: &mut ToolContext) -> ToolResult {
    let rendered = serde_json::to_value(answer).expect("MCP result is JSON serializable");
    let result =
        decode_call_result(&Json::from_compact(rendered.to_string())).expect("MCP result");
    let request = tool().execute_mcp("{}", None).expect("a call");
    match tool().execute(
        &client(),
        &request,
        Ok(CallToolResponse::Complete(result)),
        context,
    ) {
        ExecuteStep::Done(ToolExecution::Complete(result)) => result,
        other => panic!("expected a complete execution, got {other:?}"),
    }
}

fn image(data: &str) -> ToolResultContent {
    ToolResultContent::Image {
        data: data.to_owned(),
        media_type: Some(ImageMediaType::PNG),
    }
}

fn show(output: &ToolOutput) -> String {
    format!("{output:?}")
}

#[test]
fn canonical_dispatch_classifies_service_error_and_preserves_source() {
    let fault = rmcp::model::ErrorData::internal_error("fixture service failed", None);
    let request = tool().execute_mcp("{}", None).expect("a call");
    let outcome = tool().outcome(Err(ServiceError::McpError {
        code: fault.code.0,
        message: fault.message.to_string(),
        display: fault.to_string(),
    }));
    let step = tool().execute(&client(), &request, outcome, &mut ToolContext::new());
    let ExecuteStep::Done(ToolExecution::Complete(result)) = step else {
        panic!("expected a complete execution");
    };
    let error = result.error().expect("structured MCP service error");
    assert_eq!(error.kind(), ToolErrorKind::Provider);
    assert!(matches!(
        error.source(),
        Some(ErrorCause::Service(ServiceError::McpError { .. }))
    ));
    assert!(error.message().contains("fixture service failed"));
    let output = result.output().as_text().expect("text");
    assert!(output.contains("MCP tool 'fixture_tool' request failed"));
    assert!(output.contains("fixture service failed"));
}

#[test]
fn canonical_dispatch_preserves_non_text_tool_error_content() {
    let answer = CallToolResult::error(vec![ContentBlock::image("ZXJyb3ItaW1hZ2U=", "image/png")]);
    let mut context = ToolContext::new();
    let result = execute(&answer, &mut context);
    assert_eq!(
        result.error().expect("tool error").kind(),
        ToolErrorKind::Other
    );
    assert_eq!(
        show(result.output()),
        show(&ToolOutput::one(image("ZXJyb3ItaW1hZ2U=")))
    );
    let raw = context.call_result.expect("raw MCP error result metadata");
    assert_eq!(raw.is_error, Some(true));
    assert_eq!(raw.content.len(), 1);
}

#[test]
fn canonical_dispatch_preserves_ordered_content_and_response_metadata() {
    let structured = value("{\"answer\": 42, \"source\": \"fixture\"}");
    let mut answer = CallToolResult::success(vec![
        ContentBlock::text("before"),
        ContentBlock::image("aGVsbG8=", "image/png"),
        ContentBlock::text("after"),
    ]);
    answer.structured_content = Some(structured.clone());
    let mut meta = rmcp::model::MetaObject::default();
    meta.0
        .insert("response-id".into(), value("\"response-123\""));
    answer.meta = Some(meta);

    let mut context = ToolContext::new();
    let result = execute(&answer, &mut context);
    let expected = ToolOutput::content(vec![
        ToolResultContent::Json(Json::from_compact(structured.to_string())),
        ToolResultContent::Text("before".to_owned()),
        image("aGVsbG8="),
        ToolResultContent::Text("after".to_owned()),
    ]);
    assert_eq!(show(result.output()), show(&expected));
    let raw = context.call_result.expect("raw MCP result metadata");
    assert_eq!(raw.content.len(), 3);
    assert_eq!(
        value(&raw.structured_content.expect("structured").text),
        structured
    );
    assert_eq!(
        value(&context.structured.expect("structured").text),
        structured
    );
    assert_eq!(
        context
            .meta
            .expect("meta")
            .member("response-id")
            .and_then(|id| id.as_string()),
        Some("response-123".to_owned())
    );
}

#[test]
fn canonical_dispatch_uses_structured_content_when_blocks_are_empty() {
    let mut answer = CallToolResult::success(vec![]);
    answer.structured_content = Some(value("{\"answer\": 42}"));
    let mut context = ToolContext::new();
    let result = execute(&answer, &mut context);
    assert_eq!(
        show(result.output()),
        show(&ToolOutput::json(Json::from_compact(
            "{\"answer\":42}".to_owned()
        )))
    );
    assert_eq!(context.structured.expect("structured").text, "{\"answer\":42}");
}

#[test]
fn canonical_dispatch_classifies_invalid_json_and_preserves_source() {
    let error = tool().execute_mcp("{", None).expect_err("argument error");
    assert_eq!(error.kind(), ToolErrorKind::InvalidArgs);
    assert!(matches!(
        error.source(),
        Some(ErrorCause::Arguments(McpArgumentError::Json(_)))
    ));
    let result = ToolResult::failed(error);
    let output = result.output().as_text().expect("text");
    assert!(output.contains("MCP tool 'fixture_tool' received invalid arguments"));
    assert!(output.contains("invalid JSON"));
}

fn driver(client: &mut McpClientState) -> McpTaskDriver {
    McpTaskDriver::new(
        client,
        "task-1".to_owned(),
        None,
        None,
        None,
        StringMap::new(),
        at(0),
    )
    .expect("driver")
}

fn got(payload: TaskPayload) -> Result<GetTaskResult, ServiceError> {
    Ok(GetTaskResult {
        meta: None,
        task: task(TaskStatus::Working),
        payload,
    })
}

fn completed() -> TaskPayload {
    TaskPayload::Completed(Json::from_compact(
        "{\"content\":[{\"type\":\"text\",\"text\":\"deferred complete\"}]}".to_owned(),
    ))
}

#[test]
fn task_input_uses_tasks_update_and_terminal_state_is_immutable() {
    let mut client = client();
    let mut driver = driver(&mut client);
    let mut requests = StringMap::new();
    requests.put(
        "approval".to_owned(),
        InputRequestEntry {
            category: InputCategory::Elicitation,
            value: Some(Json::from_compact(
                "{\"method\":\"elicitation/create\"}".to_owned(),
            )),
        },
    );
    assert!(matches!(driver.poll(true, at(0), CREATED_MS), PollStep::Fetch));
    let DeferredToolState::InputRequired(requests) = driver
        .fetched(got(TaskPayload::InputRequired(requests)), at(0))
        .expect("input-required task state")
    else {
        panic!("expected task input");
    };
    assert_eq!(requests.0[0].id, "approval");

    let accepted = "{\"action\":\"accept\",\"content\":{\"approved\":true}}";
    let responses = InputResponses(vec![InputResponse {
        request_id: "approval".to_owned(),
        value: Json::from_compact(accepted.to_owned()),
    }]);
    match driver.submit_input(&client, responses) {
        TaskRequestStep::Send {
            input_responses: Some(sent),
            ..
        } => assert_eq!(sent.get("approval").expect("response").text, accepted),
        other => panic!("expected an update, got {other:?}"),
    }
    after_request("tasks/update", Ok(())).expect("submit task input");
    assert!(matches!(driver.poll(false, at(0), CREATED_MS), PollStep::Fetch));
    let DeferredToolState::Completed(result) =
        driver.fetched(got(completed()), at(0)).expect("state")
    else {
        panic!("expected completed task after input");
    };
    assert_eq!(result.output().as_text(), Some("deferred complete"));
    assert!(matches!(
        driver.cancel(&client),
        TaskRequestStep::Done(DeferredToolState::Completed(_))
    ));
}

#[test]
fn task_cancellation_is_cooperative_and_confirmed_by_tasks_get() {
    let mut client = client();
    let mut driver = driver(&mut client);
    assert!(matches!(
        driver
            .fetched(got(TaskPayload::Working), at(0))
            .expect("working task"),
        DeferredToolState::Working
    ));
    assert!(matches!(
        driver.cancel(&client),
        TaskRequestStep::Send {
            input_responses: None,
            ..
        }
    ));
    after_request("tasks/cancel", Ok(())).expect("cancel task");
    assert!(driver.terminal().is_none());
    assert!(matches!(driver.poll(false, at(0), CREATED_MS), PollStep::Fetch));
    assert!(matches!(
        driver
            .fetched(got(TaskPayload::Cancelled), at(0))
            .expect("cancelled task"),
        DeferredToolState::Cancelled
    ));
    assert!(matches!(
        driver.poll(true, at(1), CREATED_MS),
        PollStep::Done(DeferredToolState::Cancelled)
    ));
}

#[test]
fn task_notification_wakes_polling_but_tasks_get_remains_authoritative() {
    let mut client = client();
    let mut driver = driver(&mut client);
    assert!(matches!(driver.poll(true, at(0), CREATED_MS), PollStep::Fetch));
    assert!(matches!(
        driver
            .fetched(got(TaskPayload::Working), at(0))
            .expect("working task"),
        DeferredToolState::Working
    ));
    assert!(matches!(
        driver.poll(true, at(0), CREATED_MS),
        PollStep::Sleep { .. }
    ));
    assert!(matches!(driver.woken(PollWake::Notified), PollStep::Fetch));
    assert!(matches!(
        driver.fetched(got(completed()), at(0)).expect("notified task state"),
        DeferredToolState::Completed(_)
    ));
}

#[test]
fn forbidden_tool_never_dispatches_as_task() {
    assert_eq!(
        McpTaskPolicy::Preferred.dispatch_mode(None, true),
        DispatchMode::Plain
    );
}

fn handle(elicitation_available: bool) -> McpTaskHandle {
    McpTaskHandle::from_create_result(
        "work".to_owned(),
        CreateTaskResult {
            task: task(TaskStatus::Working),
            meta: None,
        },
        None,
        Some(server_key("test-task-server", "0.1.0")),
        elicitation_available,
    )
}

#[test]
fn required_tool_default_policy_dispatches_deferred() {
    assert_eq!(
        McpTaskPolicy::default().dispatch_mode(Some(TaskSupport::Required), true),
        DispatchMode::Task
    );
    let handle = handle(false);
    assert!(handle.task_id().starts_with("task-"));
    assert_eq!(handle.poll_hint(), Some(Duration::from_millis(100)));
}

#[test]
fn no_server_task_capability_forces_plain_call() {
    assert_eq!(
        McpTaskPolicy::Preferred.dispatch_mode(Some(TaskSupport::Optional), false),
        DispatchMode::Plain
    );
    let failure = McpTaskPolicy::Preferred
        .dispatch_mode(Some(TaskSupport::Required), false)
        .refusal("no tasks".to_owned())
        .expect("refused");
    assert_eq!(failure.kind(), ToolErrorKind::Provider);
    assert_eq!(failure.code(), Some("mcp_task_capability_missing"));
}

fn elicited(answer: &str) -> rig_tasks::model::CallToolResult {
    let result = CallToolResult::success(vec![ContentBlock::text(format!("elicited:{answer}"))]);
    let rendered = serde_json::to_value(&result).expect("MCP result is JSON serializable");
    decode_call_result(&Json::from_compact(rendered.to_string())).expect("MCP result")
}

fn input_required() -> WaitEvent {
    WaitEvent::Notified(TaskStatusUpdate {
        status: TaskStatus::InputRequired,
        status_message: None,
        poll_interval: None,
    })
}

#[test]
fn elicitation_completes_an_input_required_task() {
    let handle = handle(true);
    let (state, action) = handle.wait_step(handle.wait(), WaitEvent::Started(None));
    assert!(matches!(action, WaitAction::Race { .. }));
    let (state, action) = handle.wait_step(state, input_required());
    assert!(matches!(action, WaitAction::Race { .. }));
    let (state, action) = handle.wait_step(state, WaitEvent::PayloadReady(elicited("blue")));
    assert!(matches!(action, WaitAction::FetchStatus { reopen: false }));
    let (_, action) =
        handle.wait_step(state, WaitEvent::StatusReady(task(TaskStatus::Completed)));
    let WaitAction::Finish(result) = action else {
        panic!("wait must survive input_required and resolve after the elicitation");
    };
    assert!(result.result().error().is_none());
    assert_eq!(result.result().output().as_text(), Some("elicited:blue"));
    let info = result
        .context()
        .task_info
        .as_ref()
        .expect("final result carries McpTaskInfo");
    assert_eq!(info.status, ToolTaskStatus::Completed);
}

#[test]
fn no_handler_declines_and_input_required_stays_a_failure() {
    let handle = handle(false);
    let (_, action) = handle.wait_step(handle.wait(), input_required());
    let WaitAction::Finish(result) = action else {
        panic!("wait resolves fast without a handler");
    };
    let failure = result.result().error().expect("a failure result");
    assert_eq!(failure.code(), Some("mcp_task_input_required"));
}

#[test]
fn resumer_from_elicitation_handler_survives_input_required() {
    let descriptor = handle(false).descriptor();
    let resumed = McpTaskHandle::resume_with_options(descriptor, None, None, true)
        .expect("the mcp resumer must claim an mcp descriptor");
    let (state, action) = resumed.wait_step(resumed.wait(), input_required());
    assert!(matches!(action, WaitAction::Race { .. }));
    let (state, _) = resumed.wait_step(
        state,
        WaitEvent::PayloadReady(elicited("resumed answer")),
    );
    let (_, action) = resumed.wait_step(
        state,
        WaitEvent::StatusFailed(ToolExecutionError::network("lost".to_owned())),
    );
    let WaitAction::Finish(result) = action else {
        panic!("resumed wait must survive input_required");
    };
    assert!(result.result().error().is_none());
    assert_eq!(
        result.result().output().as_text(),
        Some("elicited:resumed answer")
    );
}

#[test]
fn dispatch_resolve_awaits_deferred_handles() {
    let completed: ToolDispatch<McpTaskHandle> =
        ToolDispatch::Completed(ToolResult::success(ToolOutput::text("done".to_owned())));
    let Ok(result) = completed.resolve() else {
        panic!("expected a final result");
    };
    assert_eq!(result.output().as_text(), Some("done"));

    let deferred = MockTaskTool::new("stub-task".to_owned()).dispatch_structured();
    assert!(format!("{deferred:?}").contains("stub-task"));
    let Err(waiting) = deferred.resolve() else {
        panic!("expected a handle");
    };
    assert_eq!(waiting.task_id(), "stub-task");
    let mut script = MockTaskState::default();
    assert!(waiting.wait(&mut script).is_none());
    script.complete("task output".to_owned());
    let result = waiting.wait(&mut script).expect("result");
    assert_eq!(result.output().as_text(), Some("task output"));
}

use rig_tasks::content::decode_call_result;
use rig_tasks::descriptor::ToolTaskDescriptor;
use rig_tasks::duration::Duration;
use rig_tasks::error::{ToolErrorKind, ToolExecutionError};
use rig_tasks::json::Json;
use rig_tasks::model::{
    CallToolResult, CreateTaskResult, GetTaskResult, ServerReply, ServiceError, Task, TaskPayload,
    TaskStatus,
};
use rig_tasks::result::ToolTaskResult;
use rig_tasks::service_error::{cancel_task, get_task};
use rig_tasks::status::ToolTaskStatus;
use rig_tasks::task::{McpTaskResumer, ToolTaskHandle};
use rig_tasks::task_handle::{
    clamp_poll_interval, default_mcp_task_poll_interval, server_key, McpTaskHandle,
    TaskStatusUpdate,
};
use rig_tasks::wait::{WaitAction, WaitEvent};

fn task(status: TaskStatus, message: Option<&str>) -> Task {
    Task {
        task_id: "task-1".to_owned(),
        status,
        status_message: message.map(str::to_owned),
        created_at: "2026-01-01T00:00:00Z".to_owned(),
        last_updated_at: "2026-01-01T00:00:00Z".to_owned(),
        ttl_ms: Some(60_000),
        poll_interval_ms: None,
    }
}

fn handle_with(meta: Option<Json>, elicitation: bool) -> McpTaskHandle {
    McpTaskHandle::from_create_result(
        "work".to_owned(),
        CreateTaskResult {
            task: task(TaskStatus::Working, None),
            meta,
        },
        Some(Duration::from_secs(30)),
        Some(server_key("test-task-server", "0.1.0")),
        elicitation,
    )
}

fn handle() -> McpTaskHandle {
    handle_with(None, false)
}

fn payload(text: &str, is_error: bool) -> CallToolResult {
    decode_call_result(&Json::from_compact(format!(
        "{{\"content\":[{{\"type\":\"text\",\"text\":\"{text}\"}}],\"isError\":{is_error}}}"
    )))
    .expect("payload")
}

fn update(status: TaskStatus) -> TaskStatusUpdate {
    TaskStatusUpdate {
        status,
        status_message: None,
        poll_interval: None,
    }
}

fn finish(action: WaitAction) -> ToolTaskResult {
    match action {
        WaitAction::Finish(result) => result,
        other => panic!("expected the end, got {other:?}"),
    }
}

/// Runs a wait through `events` and gives back the last action.
fn run(handle: &McpTaskHandle, events: Vec<WaitEvent>) -> WaitAction {
    let mut state = handle.wait();
    let mut last = None;
    for event in events {
        let (next, action) = handle.wait_step(state, event);
        state = next;
        last = Some(action);
    }
    last.expect("some event")
}

#[test]
fn deferred_wait_happy_path() {
    let handle = handle();
    let descriptor = handle.descriptor();
    assert_eq!(descriptor.backend, ToolTaskDescriptor::BACKEND_MCP);
    assert_eq!(descriptor.task_id, "task-1");
    assert_eq!(descriptor.tool_name, "work");
    assert_eq!(descriptor.server_key.as_deref(), Some("test-task-server@0.1.0"));

    let result = finish(run(
        &handle,
        vec![
            WaitEvent::Started(None),
            WaitEvent::PayloadReady(payload("task output", false)),
            WaitEvent::StatusReady(task(TaskStatus::Completed, None)),
        ],
    ));
    assert_eq!(result.result().output().as_text(), Some("task output"));
    assert!(result.result().error().is_none());
    let info = result.context().task_info.as_ref().expect("task info");
    assert_eq!(info.task_id, "task-1");
    assert_eq!(info.status, ToolTaskStatus::Completed);
    assert_eq!(info.server_key.as_deref(), Some("test-task-server@0.1.0"));
}

#[test]
fn immediate_response_hint_is_extracted() {
    let meta = Json::parse(
        "{\"io.modelcontextprotocol/model-immediate-response\": \"working on it\"}",
    )
    .expect("meta");
    let handle = handle_with(Some(meta), false);
    assert_eq!(handle.immediate_response(), Some("working on it"));
    assert_eq!(
        handle.descriptor().immediate_response.as_deref(),
        Some("working on it")
    );
    let odd = Json::parse("{\"io.modelcontextprotocol/model-immediate-response\": 7}").expect("meta");
    assert_eq!(handle_with(Some(odd), false).immediate_response(), None);
}

#[test]
fn cancel_maps_to_cancelled() {
    let handle = handle();
    let cancelled = task(TaskStatus::Cancelled, None);
    cancel_task(
        handle.task_id(),
        Ok(ServerReply::CancelTask(cancelled.clone())),
        "",
    )
    .expect("cancel succeeds");
    let fetched = get_task(
        handle.task_id(),
        Ok(ServerReply::GetTask(GetTaskResult {
            meta: None,
            task: cancelled,
            payload: TaskPayload::Cancelled,
        })),
        "",
    );
    assert_eq!(
        handle.status(fetched).expect("status"),
        ToolTaskStatus::Cancelled
    );

    let result = finish(run(
        &handle,
        vec![
            WaitEvent::Started(None),
            WaitEvent::PayloadReady(payload("stopped", true)),
            WaitEvent::StatusReady(task(TaskStatus::Cancelled, None)),
        ],
    ));
    assert_eq!(result.status(), ToolTaskStatus::Cancelled);
    let failure = result.result().error().expect("failure");
    assert_eq!(failure.kind(), ToolErrorKind::Cancelled);
    assert_eq!(failure.message(), "MCP task 'task-1' was cancelled");
    assert_eq!(result.result().output().as_text(), Some("stopped"));
    let info = result.context().task_info.as_ref().expect("task info");
    assert_eq!(info.status, ToolTaskStatus::Cancelled);
}

#[test]
fn failed_status_carries_status_message() {
    let result = finish(run(
        &handle(),
        vec![
            WaitEvent::Started(None),
            WaitEvent::PayloadReady(payload("disk full", true)),
            WaitEvent::StatusReady(task(TaskStatus::Failed, Some("disk full"))),
        ],
    ));
    let failure = result.result().error().expect("failure");
    assert_eq!(failure.kind(), ToolErrorKind::Other);
    assert_eq!(result.result().output().as_text(), Some("disk full"));
    let info = result.context().task_info.as_ref().expect("task info");
    assert_eq!(info.status, ToolTaskStatus::Failed);
    assert_eq!(info.status_message.as_deref(), Some("disk full"));
}

#[test]
fn completed_status_with_an_error_payload_is_a_provider_failure() {
    let result = finish(run(
        &handle(),
        vec![
            WaitEvent::Started(Some(update(TaskStatus::Completed))),
            WaitEvent::PayloadReady(payload("tool rejected the input", true)),
        ],
    ));
    assert_eq!(result.status(), ToolTaskStatus::Failed);
    let failure = result.result().error().expect("failure");
    assert_eq!(failure.kind(), ToolErrorKind::Provider);
    assert_eq!(failure.code(), Some("mcp_task_status_mismatch"));
    assert_eq!(failure.retryable(), Some(false));
    assert_eq!(
        failure.message(),
        "MCP task 'task-1' reported Completed with an error payload"
    );
    assert_eq!(
        result.result().output().as_text(),
        Some("tool rejected the input")
    );
    let info = result.context().task_info.as_ref().expect("task info");
    assert_eq!(info.status, ToolTaskStatus::Completed);
}

#[test]
fn failed_status_with_a_success_payload_is_a_provider_failure() {
    let result = finish(run(
        &handle(),
        vec![
            WaitEvent::Started(Some(update(TaskStatus::Failed))),
            WaitEvent::PayloadReady(payload("backend failed", false)),
        ],
    ));
    assert_eq!(result.status(), ToolTaskStatus::Failed);
    let failure = result.result().error().expect("failure");
    assert_eq!(failure.kind(), ToolErrorKind::Provider);
    assert_eq!(failure.code(), Some("mcp_task_status_mismatch"));
    assert_eq!(
        failure.message(),
        "MCP task 'task-1' returned a status/payload mismatch: the server reported Failed with a success payload"
    );
    assert_eq!(result.result().output().as_text(), Some("backend failed"));
    let info = result.context().task_info.as_ref().expect("task info");
    assert_eq!(info.status, ToolTaskStatus::Failed);
}

#[test]
fn notification_does_not_abandon_the_result_request() {
    let handle = handle();
    let action = run(
        &handle,
        vec![
            WaitEvent::Started(None),
            WaitEvent::Notified(update(TaskStatus::Failed)),
        ],
    );
    match action {
        WaitAction::Race { interval } => {
            assert_eq!(interval, default_mcp_task_poll_interval())
        }
        other => panic!("a status is no substitute for the result, got {other:?}"),
    }
}

#[test]
fn expired_task_maps_to_not_found() {
    let handle = handle();
    let fault = rmcp::model::ErrorData::invalid_params("task not found", None);
    let lost = || {
        get_task(
            handle.task_id(),
            Err(ServiceError::McpError {
                code: fault.code.0,
                message: fault.message.to_string(),
                display: fault.to_string(),
            }),
            "",
        )
    };
    let status = handle
        .status(lost())
        .expect_err("status of an expired task errs");
    assert_eq!(status.kind(), ToolErrorKind::NotFound);

    let result = finish(run(
        &handle,
        vec![
            WaitEvent::Started(None),
            WaitEvent::Tick,
            WaitEvent::StatusFailed(lost().expect_err("expired")),
        ],
    ));
    let failure = result.result().error().expect("failure");
    assert_eq!(failure.kind(), ToolErrorKind::NotFound);
    let info = result.context().task_info.as_ref().expect("task info");
    assert_eq!(info.status_message.as_deref(), Some(status.message()));
    assert_eq!(info.status, ToolTaskStatus::Failed);
}

#[test]
fn input_required_surfaces_as_classified_failure() {
    let result = finish(run(
        &handle(),
        vec![
            WaitEvent::Started(None),
            WaitEvent::Tick,
            WaitEvent::StatusReady(task(TaskStatus::InputRequired, None)),
        ],
    ));
    let failure = result.result().error().expect("failure");
    assert_eq!(failure.code(), Some("mcp_task_input_required"));
    assert_eq!(failure.retryable(), Some(false));
    assert_eq!(
        failure.message(),
        "MCP task 'task-1' for tool 'work' requires interactive input, but no elicitation handler is registered on this connection (see `McpClientHandler::with_elicitation_handler`)"
    );
    let info = result.context().task_info.as_ref().expect("task info");
    assert_eq!(info.status, ToolTaskStatus::InputRequired);
}

#[test]
fn elicitation_keeps_waiting_through_input_required() {
    let handle = handle_with(None, true);
    assert!(matches!(
        run(
            &handle,
            vec![
                WaitEvent::Started(None),
                WaitEvent::Notified(update(TaskStatus::InputRequired)),
            ],
        ),
        WaitAction::Race { .. }
    ));
}

#[test]
fn a_timed_out_result_request_is_reopened() {
    let timeout = ToolExecutionError::timeout("slow".to_owned());
    assert!(matches!(
        run(
            &handle(),
            vec![WaitEvent::Started(None), WaitEvent::PayloadFailed(timeout)],
        ),
        WaitAction::FetchStatus { reopen: true }
    ));
    assert!(matches!(
        run(&handle(), vec![WaitEvent::Started(None), WaitEvent::Tick]),
        WaitAction::FetchStatus { reopen: false }
    ));
}

#[test]
fn transient_status_failures_keep_the_wait_alive() {
    let lost = ToolExecutionError::network("lost".to_owned());
    assert!(matches!(
        run(
            &handle(),
            vec![
                WaitEvent::Started(None),
                WaitEvent::Tick,
                WaitEvent::StatusFailed(lost),
            ],
        ),
        WaitAction::Race { .. }
    ));
}

#[test]
fn a_failed_result_request_ends_the_wait() {
    let result = finish(run(
        &handle(),
        vec![
            WaitEvent::Started(Some(update(TaskStatus::Cancelled))),
            WaitEvent::PayloadFailed(ToolExecutionError::network("lost".to_owned())),
        ],
    ));
    assert_eq!(result.status(), ToolTaskStatus::Cancelled);
    assert_eq!(
        result.result().error().expect("failure").kind(),
        ToolErrorKind::Network
    );
}

#[test]
fn a_payload_stands_where_the_status_cannot_be_had() {
    let result = finish(run(
        &handle(),
        vec![
            WaitEvent::Started(None),
            WaitEvent::PayloadReady(payload("done", false)),
            WaitEvent::StatusFailed(ToolExecutionError::not_found("gone".to_owned())),
        ],
    ));
    assert_eq!(result.status(), ToolTaskStatus::Completed);
    let failed = finish(run(
        &handle(),
        vec![
            WaitEvent::Started(None),
            WaitEvent::PayloadReady(payload("bad", true)),
            WaitEvent::StatusFailed(ToolExecutionError::network("lost".to_owned())),
        ],
    ));
    assert_eq!(failed.status(), ToolTaskStatus::Failed);
    assert_eq!(
        failed.result().error().expect("failure").message(),
        "MCP task 'task-1' reported an execution error"
    );
}

#[test]
fn poll_intervals_have_a_floor() {
    assert_eq!(clamp_poll_interval(0), Duration::from_millis(100));
    assert_eq!(clamp_poll_interval(99), Duration::from_millis(100));
    assert_eq!(clamp_poll_interval(2_500), Duration::from_millis(2_500));
    let mut eager = update(TaskStatus::Working);
    eager.poll_interval = Some(1);
    match run(&handle(), vec![WaitEvent::Started(Some(eager))]) {
        WaitAction::Race { interval } => assert_eq!(interval, Duration::from_millis(100)),
        other => panic!("unexpected {other:?}"),
    }
    assert_eq!(default_mcp_task_poll_interval(), Duration::from_secs(2));
}

#[test]
fn descriptors_bring_the_same_task_back() {
    let created = McpTaskHandle::from_task(
        "work".to_owned(),
        Task {
            poll_interval_ms: Some(750),
            ..task(TaskStatus::Working, None)
        },
        Some("started".to_owned()),
        None,
        Some("srv@1".to_owned()),
        true,
    );
    let back = McpTaskHandle::resume(
        created.descriptor(),
        Some(Duration::from_secs(7)),
        Some("srv@2".to_owned()),
    )
    .expect("resumed");
    assert_eq!(back.task_id(), "task-1");
    assert_eq!(back.tool_name, "work");
    assert_eq!(back.created_at.as_deref(), Some("2026-01-01T00:00:00Z"));
    assert_eq!(back.ttl_ms, Some(60_000));
    assert_eq!(back.poll_hint(), Some(Duration::from_millis(750)));
    assert_eq!(back.immediate_response(), Some("started"));
    assert_eq!(back.request_timeout, Some(Duration::from_secs(7)));
    assert_eq!(back.server_key.as_deref(), Some("srv@2"));
    assert!(!back.elicitation_available);
}

#[test]
fn descriptors_of_other_backends_are_refused() {
    let foreign = ToolTaskDescriptor::new("other".to_owned(), "t".to_owned(), "x".to_owned());
    let error = McpTaskHandle::resume(foreign, None, None).expect_err("refused");
    assert_eq!(error.kind(), ToolErrorKind::InvalidArgs);
    assert_eq!(
        error.message(),
        "descriptor for backend 'other' cannot be resumed as an MCP task"
    );
}

#[test]
fn resumer_disambiguates_servers_with_the_same_identity_key() {
    let descriptor = handle().descriptor();
    let resumer = McpTaskResumer::new(Some("test-task-server@0.1.0".to_owned()), None)
        .with_elicitation_available(true);
    let claim = resumer.claim(&descriptor).expect("may be mine");
    assert!(claim.elicitation_available);
    let wrong = resumer
        .settle(claim, Err(ToolExecutionError::not_found("unknown".to_owned())))
        .expect("a missing task is no error");
    assert!(wrong.is_none());
    let claim = resumer.claim(&descriptor).expect("may be mine");
    let right = resumer
        .settle(claim, Ok(ToolTaskStatus::Working))
        .expect("the owning server responds")
        .expect("the owning server claims the task");
    assert_eq!(right.task_id(), descriptor.task_id);
    let claim = resumer.claim(&descriptor).expect("may be mine");
    assert!(resumer
        .settle(claim, Err(ToolExecutionError::network("lost".to_owned())))
        .is_err());

    let stranger = McpTaskResumer::new(Some("another@9".to_owned()), None);
    assert!(stranger.claim(&descriptor).is_none());
    let nameless = McpTaskResumer::new(None, None);
    assert!(nameless.claim(&descriptor).is_some());
}

#[test]
fn statuses_are_converted() {
    let handle = handle();
    assert_eq!(
        handle.status(Ok(task(TaskStatus::Unknown, None))).expect("status"),
        ToolTaskStatus::Working
    );
    assert!(handle
        .status(Err(ToolExecutionError::network("lost".to_owned())))
        .is_err());
}

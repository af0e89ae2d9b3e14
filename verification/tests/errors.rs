use rig_tasks::content::decode_call_result;
use rig_tasks::duration::Duration;
use rig_tasks::error::{ToolErrorKind, ToolExecutionError};
use rig_tasks::json::Json;
use rig_tasks::model::{
    CallToolResult, CreateTaskResult, GetTaskResult, ServerReply, ServiceError, Task, TaskPayload,
    TaskStatus,
};
use rig_tasks::service_error::{
    call_tool_as_task, cancel_task, get_task, get_task_payload, map_task_service_error,
    mcp_service_error, payload_from_reading, McpTaskOperation,
};
use rmcp::model::ErrorData;

fn mcp_error(error: ErrorData) -> ServiceError {
    ServiceError::McpError {
        code: error.code.0,
        message: error.message.to_string(),
        display: error.to_string(),
    }
}

fn task(id: &str) -> Task {
    Task {
        task_id: id.to_owned(),
        status: TaskStatus::Working,
        status_message: None,
        created_at: "2026-01-01T00:00:00Z".to_owned(),
        last_updated_at: "2026-01-01T00:00:00Z".to_owned(),
        ttl_ms: None,
        poll_interval_ms: None,
    }
}

fn got(id: &str) -> ServerReply {
    ServerReply::GetTask(GetTaskResult {
        meta: None,
        task: task(id),
        payload: TaskPayload::Working,
    })
}

fn plain_result() -> CallToolResult {
    decode_call_result(&Json::from_compact(
        "{\"content\":[{\"type\":\"text\",\"text\":\"ok\"}]}".to_owned(),
    ))
    .expect("fixture result")
}

#[test]
fn map_task_service_error_classifies_kinds() {
    let cases = [
        (
            mcp_error(ErrorData::invalid_params("gone", None)),
            ToolErrorKind::NotFound,
        ),
        (
            mcp_error(ErrorData::method_not_found::<rmcp::model::GetTaskMethod>()),
            ToolErrorKind::Provider,
        ),
        (
            mcp_error(ErrorData::internal_error("boom", None)),
            ToolErrorKind::Provider,
        ),
        (
            ServiceError::Timeout {
                timeout: Duration::from_secs(1),
            },
            ToolErrorKind::Timeout,
        ),
        (
            ServiceError::Cancelled { reason: None },
            ToolErrorKind::Cancelled,
        ),
        (ServiceError::TransportClosed, ToolErrorKind::Network),
        (ServiceError::UnexpectedResponse, ToolErrorKind::Provider),
    ];
    for (err, expected) in cases {
        let mapped = map_task_service_error(McpTaskOperation::Get, "task-1", err);
        assert_eq!(mapped.kind(), expected);
    }

    let already_terminal = map_task_service_error(
        McpTaskOperation::Cancel,
        "task-1",
        mcp_error(ErrorData::invalid_params("already terminal", None)),
    );
    assert_eq!(already_terminal.kind(), ToolErrorKind::Provider);
}

#[test]
fn task_request_failures_have_exact_messages() {
    let message = |operation, error| {
        map_task_service_error(operation, "task-1", error)
            .message()
            .to_owned()
    };
    assert_eq!(
        message(
            McpTaskOperation::Get,
            mcp_error(ErrorData::invalid_params("gone", None))
        ),
        "MCP task 'task-1' not found or expired during tasks/get: gone"
    );
    assert_eq!(
        message(
            McpTaskOperation::Launch,
            mcp_error(ErrorData::invalid_params("bad", None))
        ),
        "MCP server rejected tools/call (task) for task 'task-1': bad"
    );
    assert_eq!(
        message(
            McpTaskOperation::Result,
            ServiceError::McpError {
                code: -32601,
                message: "what?".to_owned(),
                display: "-32601: what?".to_owned(),
            }
        ),
        "MCP server does not support tasks/result: what?"
    );
    assert_eq!(
        message(
            McpTaskOperation::Get,
            ServiceError::McpError {
                code: -32603,
                message: "boom".to_owned(),
                display: "-32603: boom".to_owned(),
            }
        ),
        "tasks/get for MCP task 'task-1' failed: -32603: boom"
    );
    assert_eq!(
        message(
            McpTaskOperation::Cancel,
            ServiceError::Timeout {
                timeout: Duration::from_millis(25)
            }
        ),
        "tasks/cancel for MCP task 'task-1' timed out after 25ms"
    );
    assert_eq!(
        message(
            McpTaskOperation::Result,
            ServiceError::Cancelled { reason: None }
        ),
        "tasks/result for MCP task 'task-1' was cancelled: <unknown>"
    );
    assert_eq!(
        message(
            McpTaskOperation::Get,
            ServiceError::TransportSend("pipe".to_owned())
        ),
        "tasks/get for MCP task 'task-1' hit a transport failure: Transport send error: pipe"
    );
    assert_eq!(
        message(McpTaskOperation::Get, ServiceError::UnexpectedResponse),
        "tasks/get for MCP task 'task-1' returned an unexpected response type"
    );
    let other = map_task_service_error(
        McpTaskOperation::Get,
        "task-1",
        ServiceError::Other("strange".to_owned()),
    );
    assert_eq!(other.kind(), ToolErrorKind::Other);
    assert_eq!(
        other.message(),
        "tasks/get for MCP task 'task-1' failed: strange"
    );
}

#[test]
fn service_errors_render_as_rmcp_renders_them() {
    let pairs: Vec<(ServiceError, rmcp::ServiceError)> = vec![
        (
            mcp_error(ErrorData::internal_error("boom", None)),
            rmcp::ServiceError::McpError(ErrorData::internal_error("boom", None)),
        ),
        (
            ServiceError::TransportClosed,
            rmcp::ServiceError::TransportClosed,
        ),
        (
            ServiceError::UnexpectedResponse,
            rmcp::ServiceError::UnexpectedResponse,
        ),
        (
            ServiceError::Cancelled {
                reason: Some("enough".to_owned()),
            },
            rmcp::ServiceError::Cancelled {
                reason: Some("enough".to_owned()),
            },
        ),
        (
            ServiceError::Cancelled { reason: None },
            rmcp::ServiceError::Cancelled { reason: None },
        ),
        (
            ServiceError::Timeout {
                timeout: Duration::new(2, 500_000_000),
            },
            rmcp::ServiceError::Timeout {
                timeout: std::time::Duration::new(2, 500_000_000),
            },
        ),
    ];
    for (ours, theirs) in pairs {
        assert_eq!(ours.display(), theirs.to_string());
    }
}

#[test]
fn only_a_new_task_answers_a_task_launch() {
    let created = call_tool_as_task(
        Ok(ServerReply::CreateTask(CreateTaskResult {
            task: task("task-9"),
            meta: None,
        })),
        "",
    )
    .expect("created");
    assert_eq!(created.task.task_id, "task-9");
    let plain = call_tool_as_task(Ok(ServerReply::CallTool(plain_result())), "").expect_err("plain");
    assert_eq!(plain.kind(), ToolErrorKind::Provider);
    assert_eq!(
        plain.message(),
        "MCP server ignored task augmentation and returned a plain tool result"
    );
    let other = call_tool_as_task(Ok(ServerReply::Empty), "EmptyResult").expect_err("other");
    assert_eq!(
        other.message(),
        "task-augmented tools/call returned an unexpected result: EmptyResult"
    );
    let failed = call_tool_as_task(Err(ServiceError::TransportClosed), "").expect_err("failed");
    assert_eq!(
        failed.message(),
        "tools/call (task) for MCP task '<new>' hit a transport failure: Transport closed"
    );
}

#[test]
fn task_answers_are_taken_apart() {
    assert_eq!(
        get_task("t", Ok(got("t")), "").expect("task").task_id,
        "t"
    );
    assert_eq!(
        get_task("t", Ok(ServerReply::TaskAck), "Ack")
            .expect_err("wrong")
            .message(),
        "tasks/get returned an unexpected result: Ack"
    );
    assert_eq!(
        cancel_task("t", Ok(ServerReply::CancelTask(task("t"))), "")
            .expect("task")
            .task_id,
        "t"
    );
    assert_eq!(
        cancel_task("t", Ok(got("t")), "").expect("task").task_id,
        "t"
    );
    assert_eq!(
        cancel_task("t", Ok(ServerReply::Empty), "Empty")
            .expect_err("wrong")
            .message(),
        "tasks/cancel returned an unexpected result: Empty"
    );
}

#[test]
fn payloads_of_no_known_shape_are_read_again() {
    let direct = get_task_payload("t", Ok(ServerReply::CallTool(plain_result())), "");
    assert_eq!(direct.expect("payload").content.len(), 1);
    let custom = Json::from_compact(
        "{\"content\":[{\"type\":\"text\",\"text\":\"raw\"}]}".to_owned(),
    );
    let reread = get_task_payload("t", Ok(ServerReply::Custom(custom)), "").expect("payload");
    assert_eq!(reread.content.len(), 1);
    let error = get_task_payload(
        "t",
        Ok(ServerReply::Custom(Json::from_compact("{}".to_owned()))),
        "",
    )
    .expect_err("no tool result");
    assert_eq!(error.kind(), ToolErrorKind::Provider);
    assert!(error
        .message()
        .starts_with("tasks/result payload for MCP task 't' was not a CallToolResult: "));
    assert_eq!(
        payload_from_reading("t", Err("why".to_owned()))
            .expect_err("no tool result")
            .message(),
        "tasks/result payload for MCP task 't' was not a CallToolResult: why"
    );
    assert_eq!(
        get_task_payload("t", Ok(got("t")), "Got")
            .expect_err("wrong")
            .message(),
        "tasks/result returned an unexpected result: Got"
    );
}

#[test]
fn live_client_failures_are_classified() {
    let timeout = mcp_service_error(
        "tasks/get",
        ServiceError::Timeout {
            timeout: Duration::from_secs(3),
        },
    );
    assert_eq!(timeout.kind(), ToolErrorKind::Timeout);
    assert_eq!(timeout.message(), "MCP tasks/get timed out after 3s");
    assert_eq!(timeout.retryable(), None);
    let lost = mcp_service_error("tasks/get", ServiceError::TransportClosed);
    assert_eq!(lost.kind(), ToolErrorKind::Network);
    assert_eq!(lost.message(), "MCP tasks/get failed: Transport closed");
    assert_eq!(lost.retryable(), Some(false));
}

#[test]
fn errors_carry_what_they_were_given() {
    let error = ToolExecutionError::rate_limited("slow down".to_owned())
        .with_code("too_fast")
        .with_retryable(true);
    assert_eq!(error.kind(), ToolErrorKind::RateLimited);
    assert_eq!(error.message(), "slow down");
    assert_eq!(error.code(), Some("too_fast"));
    assert_eq!(error.retryable(), Some(true));
    assert_eq!(error.to_string(), "slow down");
}

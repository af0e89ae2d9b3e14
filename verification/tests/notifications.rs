use rig_tasks::client::{McpClientError, McpClientState, TaskNotificationState};
use rig_tasks::duration::Duration;
use rig_tasks::json::Json;
use rig_tasks::model::{ServiceError, Task, TaskStatus};
use rig_tasks::notifications::{McpNotificationDelegate, McpTaskNotifications, Reading};

fn task(id: &str, status: TaskStatus) -> Task {
    Task {
        task_id: id.to_owned(),
        status,
        status_message: None,
        created_at: "2026-01-01T00:00:00Z".to_owned(),
        last_updated_at: "2026-01-01T00:00:00Z".to_owned(),
        ttl_ms: None,
        poll_interval_ms: None,
    }
}

#[test]
fn notification_registry_tracks_only_live_handles() {
    let mut registry = McpTaskNotifications::new();
    let working = task("task-1", TaskStatus::Working);

    // Unknown notifications are disposable; polling is authoritative.
    registry.publish(&working);
    assert!(registry.is_empty());

    // Once a handle subscribes, updates are routed to it.
    let receiver = registry.subscribe("task-1");
    registry.publish(&working);
    let routed = registry.current(&receiver).expect("routed update");
    assert_eq!(routed.status, TaskStatus::Working);

    // A terminal update with a live subscriber keeps the slot...
    let done = task("task-1", TaskStatus::Completed);
    registry.publish(&done);
    assert_eq!(registry.len(), 1);

    // ...and a terminal update with no subscribers removes it.
    registry.unsubscribe(receiver);
    registry.publish(&done);
    assert_eq!(registry.len(), 0);

    // A terminal update for an unknown task never creates a slot.
    let other = task("task-2", TaskStatus::Completed);
    registry.publish(&other);
    assert_eq!(registry.len(), 0);

    registry.release("task-1");
}

#[test]
fn receivers_see_each_update_once() {
    let mut registry = McpTaskNotifications::new();
    let mut receiver = registry.subscribe("task-1");
    assert!(registry.current(&receiver).is_none());
    assert!(matches!(registry.poll(&mut receiver), Reading::Unchanged));
    registry.publish(&task("task-1", TaskStatus::InputRequired));
    match registry.poll(&mut receiver) {
        Reading::Update(update) => assert_eq!(update.status, TaskStatus::InputRequired),
        other => panic!("unexpected {other:?}"),
    }
    assert!(matches!(registry.poll(&mut receiver), Reading::Unchanged));
    registry.release("task-1");
    assert!(matches!(registry.poll(&mut receiver), Reading::Closed));
    // A receiver of an earlier slot does not count for a later one.
    let later = registry.subscribe("task-1");
    registry.unsubscribe(receiver);
    registry.publish(&task("task-1", TaskStatus::Failed));
    assert_eq!(registry.len(), 1);
    registry.unsubscribe(later);
    registry.publish(&task("task-1", TaskStatus::Failed));
    assert!(registry.is_empty());
}

struct Quiet;

impl McpNotificationDelegate for Quiet {}

#[test]
fn delegates_do_nothing_by_default() {
    let params = Json::empty_object();
    Quiet.on_progress(&params);
    Quiet.on_resource_updated(&params);
    Quiet.on_resource_list_changed();
    Quiet.on_prompt_list_changed();
    Quiet.on_cancelled(&params);
    Quiet.on_custom_notification("x/y", Some(&params));
    Quiet.on_tool_list_changed();
    Quiet.on_task_status(&task("task-1", TaskStatus::Working));
}

#[test]
fn watched_tasks_are_counted() {
    let mut state = TaskNotificationState::new();
    state.register("b");
    state.register("a");
    state.register("b");
    assert_eq!(state.task_ids(), vec!["a", "b"]);
    assert_eq!(state.revision(), 3);
    state.unregister("b");
    assert_eq!(state.task_ids(), vec!["a", "b"]);
    state.unregister("b");
    assert_eq!(state.task_ids(), vec!["a"]);
    state.unregister("b");
    assert_eq!(state.task_ids(), vec!["a"]);
    assert_eq!(state.revision(), 6);
}

#[test]
fn wake_ups_stay_pending_until_taken() {
    let mut state = TaskNotificationState::new();
    assert!(!state.wake("a"));
    state.waiter("a");
    assert!(!state.take_wakeup("a"));
    assert!(state.wake("a"));
    state.waiter("a");
    state.register("a");
    assert!(state.take_wakeup("a"));
    assert!(!state.take_wakeup("a"));
}

#[test]
fn closed_clients_take_no_requests() {
    let mut client = McpClientState::new("mcp:test".to_owned(), 10);
    assert!(client.is_available());
    assert!(client.live().is_ok());
    assert_eq!(client.deferred_backend_id().expect("id"), "mcp:test");
    client.transport_closed = true;
    assert!(!client.is_available());
    client.transport_closed = false;
    client.available = false;
    let error = client.live().expect_err("closed");
    assert_eq!(error.to_string(), "MCP client is unavailable");
    assert!(client.deferred_backend_id().is_err());
}

#[test]
fn client_errors_have_exact_messages() {
    for (error, text) in [
        (
            McpClientError::ConnectionError("refused".to_owned()),
            "MCP connection error: refused",
        ),
        (
            McpClientError::ToolFetchError(ServiceError::TransportClosed),
            "Failed to fetch MCP tool list: Transport closed",
        ),
        (
            McpClientError::DiscoveryError("no".to_owned()),
            "MCP server discovery failed: no",
        ),
        (
            McpClientError::ToolFetchTimeout(Duration::from_millis(1_500)),
            "Timed out fetching MCP tool list after 1.5s",
        ),
        (
            McpClientError::MissingToolListCacheHints,
            "MCP 2026-07-28 tools/list result omitted required ttlMs or cacheScope",
        ),
        (
            McpClientError::InvalidToolListResultType,
            "MCP 2026-07-28 tools/list result did not use resultType 'complete'",
        ),
        (
            McpClientError::UnsupportedProtocolVersion,
            "MCP server does not support protocol version 2026-07-28",
        ),
        (
            McpClientError::ToolsNotSupported,
            "MCP server Discover response does not advertise tool support",
        ),
        (McpClientError::Unavailable, "MCP client is unavailable"),
        (
            McpClientError::Shutdown("stuck".to_owned()),
            "MCP client shutdown failed: stuck",
        ),
    ] {
        assert_eq!(error.to_string(), text);
    }
}

use rig_tasks::client::{McpClientError, McpClientState};
use rig_tasks::deferred::{
    DeferredToolDescriptor, DeferredToolDriver, DeferredToolResolver, DeferredToolState,
    InputResponse, InputResponses,
};
use rig_tasks::duration::Duration;
use rig_tasks::error::{ErrorCause, ToolErrorKind};
use rig_tasks::expiry::{expiry_after, expiry_remaining, task_expiry_unix_ms};
use rig_tasks::json::{Json, JsonMap};
use rig_tasks::model::{
    CallToolResponse, CreateTaskResult, GetTaskResult, InputCategory, InputRequestEntry,
    InputRequiredResult, ServerReply, ServiceError, Task, TaskPayload, TaskStatus,
};
use rig_tasks::mrtr::{read_again, McpMrtrDriver, MrtrEnd, MrtrStep};
use rig_tasks::requests::{
    call_mcp_tool, cancel_mcp_task, get_mcp_task, rig_input_requests, rmcp_input_responses,
    update_mcp_task,
};
use rig_tasks::result::ToolContext;
use rig_tasks::string_map::StringMap;
use rig_tasks::task_driver::{
    after_request, completed_state, require_client, McpTaskDriver, PollStep, PollWake,
    TaskRequestStep,
};
use rig_tasks::tool::{McpDeferredPayload, McpDeferredResolver, McpDriver};

const CREATED: &str = "2026-01-01T00:00:00Z";
const CREATED_MS: i64 = 1_767_225_600_000;

fn task(status: TaskStatus, ttl_ms: Option<u64>, poll_interval_ms: Option<u64>) -> Task {
    Task {
        task_id: "opaque-task-id".to_owned(),
        status,
        status_message: None,
        created_at: CREATED.to_owned(),
        last_updated_at: CREATED.to_owned(),
        ttl_ms,
        poll_interval_ms,
    }
}

fn got(payload: TaskPayload) -> Result<GetTaskResult, ServiceError> {
    Ok(GetTaskResult {
        meta: Some(Json::from_compact("{\"from\":\"task\"}".to_owned())),
        task: task(TaskStatus::Working, Some(60_000), Some(500)),
        payload,
    })
}

fn completed() -> TaskPayload {
    TaskPayload::Completed(Json::from_compact(
        "{\"content\":[{\"type\":\"text\",\"text\":\"deferred complete\"}]}".to_owned(),
    ))
}

fn requests() -> StringMap<InputRequestEntry> {
    let mut requests = StringMap::new();
    requests.put(
        "approval".to_owned(),
        InputRequestEntry {
            category: InputCategory::Elicitation,
            value: Some(Json::from_compact("{\"method\":\"elicitation/create\"}".to_owned())),
        },
    );
    requests
}

fn approval() -> InputResponses {
    InputResponses(vec![InputResponse {
        request_id: "approval".to_owned(),
        value: Json::from_compact("{\"action\":\"accept\"}".to_owned()),
    }])
}

fn trace() -> JsonMap {
    let mut trace: JsonMap = StringMap::new();
    trace.put(
        "traceparent".to_owned(),
        Json::from_compact("\"00-a-b-01\"".to_owned()),
    );
    trace
}

fn client() -> McpClientState {
    McpClientState::new("mcp:test-deferred".to_owned(), 10)
}

fn driver(client: &mut McpClientState, expires: Option<i64>) -> McpTaskDriver {
    McpTaskDriver::new(
        client,
        "opaque-task-id".to_owned(),
        expires,
        None,
        Some(Duration::from_secs(30)),
        trace(),
        Duration::zero(),
    )
    .expect("driver")
}

fn state(step: PollStep) -> DeferredToolState {
    match step {
        PollStep::Done(state) => state,
        other => panic!("expected a known state, got {other:?}"),
    }
}

fn at(secs: u64) -> Duration {
    Duration::from_secs(secs)
}

#[test]
fn task_descriptor_round_trip_polls_to_completed_result() {
    let mut client = client();
    let mut driver = driver(&mut client, None);
    assert_eq!(client.task_notifications.task_ids(), vec!["opaque-task-id"]);
    assert!(matches!(driver.poll(true, at(0), CREATED_MS), PollStep::Fetch));
    assert!(matches!(
        driver.fetched(got(TaskPayload::Working), at(1)).expect("first task state"),
        DeferredToolState::Working
    ));
    // The next poll waits out the interval of the last answer.
    match driver.poll(true, Duration::from_millis(1_200), CREATED_MS) {
        PollStep::Sleep {
            poll_remaining,
            ttl_remaining,
        } => {
            assert_eq!(poll_remaining, Duration::from_millis(300));
            assert_eq!(ttl_remaining, Some(Duration::from_secs(60)));
        }
        other => panic!("unexpected {other:?}"),
    }
    assert!(matches!(driver.woken(PollWake::Scheduled), PollStep::Fetch));
    let DeferredToolState::Completed(result) = driver
        .fetched(got(completed()), at(2))
        .expect("completed task state")
    else {
        panic!("expected completed task");
    };
    assert_eq!(result.output().as_text(), Some("deferred complete"));
    let mut context = ToolContext::new();
    driver.publish_result_context(&mut context);
    assert!(context.call_result.is_some());
    assert!(context.task_result.is_some());
    assert_eq!(context.meta.expect("meta").text, "{\"from\":\"task\"}");
    // The final state is immutable.
    assert!(matches!(
        state(driver.poll(true, at(9), CREATED_MS + 1_000_000)),
        DeferredToolState::Completed(_)
    ));
    assert!(matches!(
        driver.fetched(got(TaskPayload::Cancelled), at(9)).expect("known"),
        DeferredToolState::Completed(_)
    ));
}

#[test]
fn task_ttl_expiry_stops_without_polling_discarded_state() {
    let mut client = client();
    let mut driver = driver(&mut client, Some(CREATED_MS));
    for _ in 0..2 {
        let DeferredToolState::Failed(error) = state(driver.poll(true, at(0), CREATED_MS)) else {
            panic!("expected TTL failure");
        };
        assert_eq!(error.code(), Some("mcp_task_ttl_expired"));
        assert_eq!(error.kind(), ToolErrorKind::Timeout);
        assert_eq!(error.retryable(), Some(false));
        assert_eq!(
            error.message(),
            "MCP Task 'opaque-task-id' expired before reaching a terminal state"
        );
    }
}

#[test]
fn expiry_during_the_wait_leaves_a_known_end() {
    let mut client = client();
    let mut driver = driver(&mut client, None);
    driver
        .fetched(got(TaskPayload::Cancelled), at(0))
        .expect("cancelled");
    assert!(matches!(
        driver.woken(PollWake::Expired),
        PollStep::Done(DeferredToolState::Cancelled)
    ));
    assert!(matches!(
        driver.terminal(),
        Some(DeferredToolState::Cancelled)
    ));
}

#[test]
fn expiry_during_the_wait_fails_the_task() {
    let mut client = client();
    let mut driver = driver(&mut client, Some(CREATED_MS + 5));
    assert!(matches!(driver.poll(true, at(0), CREATED_MS), PollStep::Fetch));
    assert!(matches!(
        state(driver.woken(PollWake::Expired)),
        DeferredToolState::Failed(_)
    ));
    assert!(driver.terminal().is_some());
}

#[test]
fn a_first_poll_or_an_unscheduled_one_does_not_wait() {
    let mut client = client();
    let mut driver = driver(&mut client, None);
    assert!(matches!(driver.poll(true, at(0), 0), PollStep::Fetch));
    driver.fetched(got(TaskPayload::Working), at(0)).expect("working");
    assert!(matches!(driver.poll(false, at(0), CREATED_MS), PollStep::Fetch));
    assert!(matches!(driver.poll(true, at(0), CREATED_MS), PollStep::Sleep { .. }));
    assert!(matches!(driver.woken(PollWake::Notified), PollStep::Fetch));
}

#[test]
fn payloads_become_states() {
    let mut client = client();
    let mut driver = driver(&mut client, None);
    let DeferredToolState::InputRequired(shown) = driver
        .fetched(got(TaskPayload::InputRequired(requests())), at(0))
        .expect("input")
    else {
        panic!("expected task input");
    };
    assert_eq!(shown.0[0].id, "approval");
    assert_eq!(shown.0[0].kind, "elicitation");
    assert!(shown.0[0].prompt.is_none());
    assert!(driver.terminal().is_none());

    let DeferredToolState::Failed(error) = driver
        .fetched(
            got(TaskPayload::Failed(Json::from_compact("{\"code\":-1}".to_owned()))),
            at(0),
        )
        .expect("failed")
    else {
        panic!("expected failure");
    };
    assert_eq!(error.code(), Some("mcp_task_failed"));
    assert_eq!(
        error.message(),
        "MCP Task 'opaque-task-id' failed with JSON-RPC error: {\"code\":-1}"
    );
    assert!(driver.terminal().is_some());
}

#[test]
fn unusable_answers_change_nothing() {
    let mut client = client();
    let mut driver = driver(&mut client, None);
    let mut other = got(TaskPayload::Cancelled).expect("result");
    other.task.task_id = "another".to_owned();
    let error = driver.fetched(Ok(other), at(0)).expect_err("mismatch");
    assert_eq!(
        error.message(),
        "MCP tasks/get returned task 'another' while 'opaque-task-id' was requested"
    );
    assert_eq!(error.retryable(), Some(false));
    let mut undated = got(TaskPayload::Cancelled).expect("result");
    undated.task.created_at = "yesterday".to_owned();
    assert!(driver
        .fetched(Ok(undated), at(0))
        .expect_err("no date")
        .message()
        .starts_with("MCP Task 'opaque-task-id' has an invalid createdAt timestamp: "));
    let lost = driver
        .fetched(Err(ServiceError::TransportClosed), at(0))
        .expect_err("lost");
    assert_eq!(lost.message(), "MCP tasks/get failed: Transport closed");
    assert!(driver.terminal().is_none());
    assert!(matches!(driver.poll(true, at(0), 0), PollStep::Fetch));
}

#[test]
fn unknown_and_unreadable_payloads_fail_the_task() {
    let mut client = client();
    let mut first = driver(&mut client, None);
    let DeferredToolState::Failed(error) =
        first.fetched(got(TaskPayload::Unknown), at(0)).expect("state")
    else {
        panic!("expected failure");
    };
    assert_eq!(
        error.message(),
        "MCP Task 'opaque-task-id' returned an unsupported status payload"
    );
    let mut second = driver(&mut client, None);
    let DeferredToolState::Failed(error) = second
        .fetched(got(TaskPayload::Completed(Json::empty_object())), at(0))
        .expect("state")
    else {
        panic!("expected failure");
    };
    assert!(error
        .message()
        .starts_with("MCP Task 'opaque-task-id' completed with an invalid tools/call result: "));
    let Ok((DeferredToolState::Failed(error), None)) = completed_state("t", Err("why".to_owned()))
    else {
        panic!("expected failure");
    };
    assert_eq!(
        error.message(),
        "MCP Task 't' completed with an invalid tools/call result: why"
    );
    assert!(matches!(error.source(), Some(ErrorCause::Json(why)) if why == "why"));
}

#[test]
fn requests_after_which_the_task_is_asked_for() {
    assert!(after_request("tasks/update", Ok(())).is_ok());
    let error = after_request("tasks/cancel", Err(ServiceError::UnexpectedResponse))
        .expect_err("unexpected");
    assert_eq!(
        error.message(),
        "MCP tasks/cancel failed: Unexpected response type"
    );
    let mut gone = client();
    assert!(require_client(&gone).is_ok());
    gone.available = false;
    let error = require_client(&gone).expect_err("gone");
    assert_eq!(error.kind(), ToolErrorKind::Network);
    assert!(matches!(
        error.source(),
        Some(ErrorCause::Client(McpClientError::Unavailable))
    ));
    assert_eq!(
        error.message(),
        "MCP client is unavailable: MCP client is unavailable"
    );
    let refused = McpTaskDriver::new(
        &mut gone,
        "t".to_owned(),
        None,
        None,
        None,
        StringMap::new(),
        at(0),
    )
    .expect_err("refused");
    assert_eq!(refused.kind(), ToolErrorKind::Provider);
    assert!(gone.task_notifications.task_ids().is_empty());
}

#[test]
fn open_tasks_are_reached_and_final_ones_answer() {
    let mut client = client();
    let mut driver = driver(&mut client, None);
    match driver.submit_input(&client, approval()) {
        TaskRequestStep::Send {
            task_id,
            input_responses,
            meta,
            timeout,
        } => {
            assert_eq!(task_id, "opaque-task-id");
            let responses = input_responses.expect("responses");
            assert_eq!(responses.len(), 1);
            assert!(responses.get("approval").is_some());
            let meta = meta.expect("trace");
            assert_eq!(meta.get("traceparent").expect("parent").text, "\"00-a-b-01\"");
            assert_eq!(timeout, Some(Duration::from_secs(30)));
        }
        other => panic!("unexpected {other:?}"),
    }
    match driver.cancel(&client) {
        TaskRequestStep::Send {
            task_id,
            input_responses,
            ..
        } => {
            assert_eq!(task_id, "opaque-task-id");
            assert!(input_responses.is_none());
        }
        other => panic!("unexpected {other:?}"),
    }
    client.available = false;
    match driver.cancel(&client) {
        TaskRequestStep::Refuse(error) => {
            assert_eq!(error.kind(), ToolErrorKind::Network);
            assert_eq!(error.retryable(), Some(false));
        }
        other => panic!("unexpected {other:?}"),
    }
    driver
        .fetched(got(TaskPayload::Cancelled), at(0))
        .expect("state");
    assert!(matches!(
        driver.submit_input(&client, approval()),
        TaskRequestStep::Done(DeferredToolState::Cancelled)
    ));
    assert!(matches!(
        driver.cancel(&client),
        TaskRequestStep::Done(DeferredToolState::Cancelled)
    ));
}

#[test]
fn later_requests_carry_the_trace() {
    let mut client = client();
    let driver = driver(&mut client, None);
    assert_eq!(driver.request_timeout(), Some(Duration::from_secs(30)));
    assert_eq!(driver.task_id(), "opaque-task-id");
    let meta = driver.request_meta().expect("trace");
    assert_eq!(meta.get("traceparent").expect("parent").text, "\"00-a-b-01\"");
}

#[test]
fn task_lifetimes_are_added_to_their_creation() {
    assert!(task_expiry_unix_ms(&task(TaskStatus::Working, None, None))
        .expect("no expiry")
        .is_none());
    assert_eq!(
        task_expiry_unix_ms(&task(TaskStatus::Working, Some(60_000), None)).expect("expiry"),
        Some(CREATED_MS + 60_000)
    );
    let too_large = expiry_after("t", u64::MAX, Ok(0)).expect_err("too large");
    assert_eq!(
        too_large.message(),
        "MCP Task 't' TTL is too large to enforce"
    );
    assert!(matches!(too_large.source(), Some(ErrorCause::IntegerRange)));
    let undated = task_expiry_unix_ms(&Task {
        created_at: "yesterday".to_owned(),
        ..task(TaskStatus::Working, Some(1), None)
    })
    .expect_err("undated");
    assert!(matches!(undated.source(), Some(ErrorCause::Timestamp(_))));
    assert_eq!(
        expiry_after("t", 1, Ok(i64::MAX)).expect_err("overflow").message(),
        "MCP Task 't' expiry timestamp overflowed"
    );
    assert_eq!(
        expiry_after("t", 1, Err("bad".to_owned())).expect_err("bad date").message(),
        "MCP Task 't' has an invalid createdAt timestamp: bad"
    );
    assert_eq!(expiry_remaining(None, 0), None);
    assert_eq!(expiry_remaining(Some(10), 10), Some(Duration::zero()));
    assert_eq!(expiry_remaining(Some(10), 25), Some(Duration::zero()));
    assert_eq!(expiry_remaining(Some(35), 10), Some(Duration::from_millis(25)));
    assert_eq!(
        expiry_remaining(Some(i64::MAX), i64::MIN),
        Some(Duration::from_millis(i64::MAX as u64))
    );
}

fn mrtr(round: usize, max_rounds: usize, outstanding: Option<StringMap<InputRequestEntry>>) -> McpMrtrDriver {
    McpMrtrDriver::new(
        "fixture_tool".to_owned(),
        Some(Json::from_compact("{\"x\":1}".to_owned())),
        max_rounds,
        None,
        trace(),
        InputRequiredResult {
            input_requests: outstanding,
            request_state: Some("opaque.request/state".to_owned()),
            meta: None,
        },
        round,
    )
}

fn complete(text: &str) -> CallToolResponse {
    let json = Json::from_compact(format!(
        "{{\"content\":[{{\"type\":\"text\",\"text\":\"{text}\"}}]}}"
    ));
    CallToolResponse::Complete(rig_tasks::content::decode_call_result(&json).expect("result"))
}

#[test]
fn direct_mrtr_preserves_request_state_and_uses_a_new_tool_request() {
    let mut client = client();
    let mut driver = mrtr(1, 10, Some(requests()));
    let MrtrStep::Ready(DeferredToolState::InputRequired(shown)) = driver.state() else {
        panic!("expected MRTR input");
    };
    assert_eq!(shown.0[0].kind, "elicitation");
    let MrtrStep::Call { request, next_round } = driver.submit_input(&approval()) else {
        panic!("expected a tool call");
    };
    assert_eq!(request.name, "fixture_tool");
    assert_eq!(request.arguments.expect("arguments").text, "{\"x\":1}");
    assert_eq!(request.request_state.as_deref(), Some("opaque.request/state"));
    assert!(request
        .input_responses
        .expect("responses")
        .contains_key("approval"));
    assert!(request.meta.expect("trace").contains_key("traceparent"));
    assert_eq!(next_round, 2);
    let end = driver
        .answered(Ok(complete("mrtr complete")), next_round, &mut client, at(0))
        .expect("answer");
    let MrtrEnd::State(DeferredToolState::Completed(result)) = end else {
        panic!("expected completed MRTR result");
    };
    assert_eq!(result.output().as_text(), Some("mrtr complete"));
    let mut context = ToolContext::new();
    driver.publish_result_context(&mut context);
    assert!(context.call_result.is_some());
    assert!(matches!(
        driver.cancel(),
        MrtrStep::Ready(DeferredToolState::Completed(_))
    ));
    assert!(matches!(
        driver.state(),
        MrtrStep::Ready(DeferredToolState::Completed(_))
    ));
}

#[test]
fn responses_must_match_the_requests_exactly() {
    for responses in [
        InputResponses(vec![]),
        InputResponses(vec![InputResponse {
            request_id: "other".to_owned(),
            value: Json::empty_object(),
        }]),
        InputResponses(vec![
            InputResponse {
                request_id: "approval".to_owned(),
                value: Json::empty_object(),
            },
            InputResponse {
                request_id: "more".to_owned(),
                value: Json::empty_object(),
            },
        ]),
    ] {
        let MrtrStep::Refuse(error) = mrtr(1, 10, Some(requests())).submit_input(&responses) else {
            panic!("expected a refusal");
        };
        assert_eq!(error.kind(), ToolErrorKind::InvalidArgs);
        assert_eq!(
            error.message(),
            "MRTR responses must exactly match the outstanding input request identifiers"
        );
    }
    assert!(matches!(
        mrtr(1, 10, None).submit_input(&InputResponses(vec![])),
        MrtrStep::Call { .. }
    ));
    assert!(matches!(
        mrtr(1, 10, None).submit_input(&approval()),
        MrtrStep::Refuse(_)
    ));
}

#[test]
fn input_rounds_are_limited() {
    let mut client = client();
    let mut driver = mrtr(1, 3, None);
    for round in 2..=3 {
        let MrtrStep::Call { next_round, .. } = driver.state() else {
            panic!("expected a tool call");
        };
        assert_eq!(next_round, round);
        let end = driver
            .answered(
                Ok(CallToolResponse::InputRequired(InputRequiredResult {
                    input_requests: None,
                    request_state: None,
                    meta: None,
                })),
                next_round,
                &mut client,
                at(0),
            )
            .expect("answer");
        let MrtrEnd::State(state) = end else {
            panic!("expected a state");
        };
        assert!(matches!(state, DeferredToolState::Working));
        assert!(read_again(&state));
        assert!(!read_again(&DeferredToolState::Cancelled));
    }
    let MrtrStep::Ready(DeferredToolState::Failed(error)) = driver.state() else {
        panic!("expected the limit");
    };
    assert_eq!(error.code(), Some("mcp_mrtr_rounds_exceeded"));
    assert_eq!(
        error.message(),
        "MCP tool 'fixture_tool' exceeded the configured MRTR limit of 3 rounds"
    );
    assert_eq!(error.retryable(), Some(false));
}

#[test]
fn a_call_that_becomes_a_task_is_driven_as_one() {
    let mut client = client();
    let mut driver = mrtr(1, 3, None);
    let MrtrStep::Call { next_round, .. } = driver.retry(StringMap::new()) else {
        panic!("expected a tool call");
    };
    let end = driver
        .answered(
            Ok(CallToolResponse::Task(CreateTaskResult {
                task: task(TaskStatus::Working, None, None),
                meta: None,
            })),
            next_round,
            &mut client,
            at(0),
        )
        .expect("answer");
    assert!(matches!(end, MrtrEnd::PollTask));
    assert_eq!(client.task_notifications.task_ids(), vec!["opaque-task-id"]);
    assert!(matches!(driver.state(), MrtrStep::Delegate));
    assert!(matches!(driver.submit_input(&approval()), MrtrStep::Delegate));
    assert!(matches!(driver.cancel(), MrtrStep::Delegate));
    let mut inner = driver.current_task_driver().expect("task driver").clone();
    inner.fetched(got(completed()), at(1)).expect("completed");
    driver.set_task_driver(inner);
    let mut context = ToolContext::new();
    driver.publish_result_context(&mut context);
    assert!(context.task_result.is_some());
}

#[test]
fn failed_rounds_change_nothing() {
    let mut client = client();
    let mut driver = mrtr(1, 3, Some(requests()));
    let error = driver
        .answered(Err(ServiceError::TransportClosed), 2, &mut client, at(0))
        .expect_err("lost");
    assert_eq!(
        error.message(),
        "MCP tools/call MRTR retry failed: Transport closed"
    );
    let error = driver
        .answered(Ok(CallToolResponse::Unsupported), 2, &mut client, at(0))
        .expect_err("unsupported");
    assert_eq!(
        error.message(),
        "MCP tools/call returned an unsupported result type"
    );
    client.available = false;
    let error = driver
        .answered(
            Ok(CallToolResponse::Task(CreateTaskResult {
                task: task(TaskStatus::Working, None, None),
                meta: None,
            })),
            2,
            &mut client,
            at(0),
        )
        .expect_err("no client");
    assert_eq!(error.kind(), ToolErrorKind::Provider);
    assert!(matches!(driver.state(), MrtrStep::Ready(DeferredToolState::InputRequired(_))));
    assert!(matches!(driver.cancel(), MrtrStep::Ready(DeferredToolState::Cancelled)));
    assert!(matches!(driver.state(), MrtrStep::Ready(DeferredToolState::Cancelled)));
}

#[test]
fn answers_after_a_cancellation_change_nothing() {
    let late = [
        complete("too late"),
        CallToolResponse::InputRequired(InputRequiredResult {
            input_requests: Some(requests()),
            request_state: None,
            meta: None,
        }),
        CallToolResponse::Task(CreateTaskResult {
            task: task(TaskStatus::Working, None, None),
            meta: None,
        }),
    ];
    for answer in late {
        let mut client = client();
        let mut driver = mrtr(1, 3, Some(requests()));
        assert!(matches!(
            driver.submit_input(&approval()),
            MrtrStep::Call { .. }
        ));
        assert!(matches!(
            driver.cancel(),
            MrtrStep::Ready(DeferredToolState::Cancelled)
        ));
        assert!(matches!(
            driver
                .answered(Ok(answer), 2, &mut client, at(0))
                .expect("state"),
            MrtrEnd::State(DeferredToolState::Cancelled)
        ));
        assert!(matches!(
            driver.state(),
            MrtrStep::Ready(DeferredToolState::Cancelled)
        ));
        assert!(client.task_notifications.task_ids().is_empty());
    }
}

#[test]
fn answers_of_the_wrong_kind_are_unexpected() {
    assert!(matches!(
        call_mcp_tool(Ok(ServerReply::Empty)),
        Err(ServiceError::UnexpectedResponse)
    ));
    assert!(matches!(
        get_mcp_task(Ok(ServerReply::TaskAck)),
        Err(ServiceError::UnexpectedResponse)
    ));
    assert!(update_mcp_task(Ok(ServerReply::TaskAck)).is_ok());
    assert!(update_mcp_task(Ok(ServerReply::Empty)).is_ok());
    assert!(cancel_mcp_task(Ok(ServerReply::Empty)).is_ok());
    assert!(matches!(
        cancel_mcp_task(Ok(ServerReply::Other)),
        Err(ServiceError::UnexpectedResponse)
    ));
    assert!(matches!(
        update_mcp_task(Err(ServiceError::TransportClosed)),
        Err(ServiceError::TransportClosed)
    ));
    assert!(matches!(
        call_mcp_tool(Ok(ServerReply::CreateTask(CreateTaskResult {
            task: task(TaskStatus::Working, None, None),
            meta: None,
        }))),
        Ok(CallToolResponse::Task(_))
    ));
}

#[test]
fn input_requests_are_shown_in_order() {
    let mut map = requests();
    map.put(
        "a-first".to_owned(),
        InputRequestEntry {
            category: InputCategory::Sampling,
            value: None,
        },
    );
    map.put(
        "roots".to_owned(),
        InputRequestEntry {
            category: InputCategory::Roots,
            value: None,
        },
    );
    map.put(
        "zzz".to_owned(),
        InputRequestEntry {
            category: InputCategory::Unsupported,
            value: None,
        },
    );
    let shown = rig_input_requests(&map);
    let seen: Vec<(&str, &str)> = shown
        .0
        .iter()
        .map(|request| (request.id.as_str(), request.kind.as_str()))
        .collect();
    assert_eq!(
        seen,
        vec![
            ("a-first", "sampling"),
            ("approval", "elicitation"),
            ("roots", "roots"),
            ("zzz", "unsupported"),
        ]
    );
    let responses = rmcp_input_responses(InputResponses(vec![
        InputResponse {
            request_id: "x".to_owned(),
            value: Json::from_compact("1".to_owned()),
        },
        InputResponse {
            request_id: "x".to_owned(),
            value: Json::from_compact("2".to_owned()),
        },
    ]));
    assert_eq!(responses.len(), 1);
    assert_eq!(responses.get("x").expect("response").text, "2");
}

#[test]
fn resolvers_bring_executions_back() {
    let resolver = McpDeferredResolver::new("mcp:test-deferred".to_owned());
    assert_eq!(resolver.backend_type(), "mcp:test-deferred");
    let mut client = client();
    let payload = || McpDeferredPayload::Task {
        task_id: "opaque-task-id".to_owned(),
        expires_at_unix_ms: Some(CREATED_MS),
        poll_interval_ms: Some(500),
        request_timeout_ms: Some(1_000),
        trace_meta: trace(),
    };
    let descriptor = |backend: &str, id: &str| {
        DeferredToolDescriptor::new(backend.to_owned(), id.to_owned(), Json::empty_object())
    };
    let handle = resolver
        .resolve(
            &descriptor("mcp:test-deferred", "opaque-task-id"),
            Ok(payload()),
            &mut client,
            at(0),
        )
        .expect("resolved");
    assert_eq!(handle.descriptor().execution_id(), "opaque-task-id");
    assert_eq!(client.task_notifications.task_ids(), vec!["opaque-task-id"]);
    match handle.driver() {
        McpDriver::Task(driver) => {
            assert_eq!(driver.request_timeout(), Some(Duration::from_secs(1)))
        }
        other => panic!("unexpected {other:?}"),
    }
    let mut context = ToolContext::new();
    handle.publish_result_context(&mut context);
    assert!(context.call_result.is_none());

    let wrong = resolver
        .resolve(
            &descriptor("other", "opaque-task-id"),
            Ok(payload()),
            &mut client,
            at(0),
        )
        .err()
        .expect("wrong backend");
    assert_eq!(
        wrong.message(),
        "MCP deferred descriptor targets 'other' but this resolver owns 'mcp:test-deferred'"
    );
    let malformed = resolver
        .resolve(
            &descriptor("mcp:test-deferred", "opaque-task-id"),
            Err("no kind".to_owned()),
            &mut client,
            at(0),
        )
        .err()
        .expect("malformed");
    assert_eq!(
        malformed.message(),
        "invalid MCP deferred descriptor payload: no kind"
    );
    let mismatch = resolver
        .resolve(
            &descriptor("mcp:test-deferred", "x"),
            Ok(payload()),
            &mut client,
            at(0),
        )
        .err()
        .expect("mismatch");
    assert_eq!(
        mismatch.message(),
        "MCP Task descriptor execution ID does not match its opaque task ID"
    );
    let waiting = resolver
        .resolve(
            &descriptor("mcp:test-deferred", "generated"),
            Ok(McpDeferredPayload::Mrtr {
                tool_name: "fixture_tool".to_owned(),
                arguments: None,
                request_state: Some("s".to_owned()),
                input_requests: requests(),
                round: 1,
                max_rounds: 10,
                request_timeout_ms: None,
                trace_meta: StringMap::new(),
            }),
            &mut client,
            at(0),
        )
        .expect("resolved");
    assert!(matches!(waiting.driver(), McpDriver::Mrtr(_)));
}

use rig_tasks::catalog::{
    begin_refresh, FetchProgress, ManagedToolsState, PageOutcome, RefreshActivity, ToolDefinition,
    ToolFetch, ToolListPage,
};
use rig_tasks::client::{McpClientError, McpClientState};
use rig_tasks::config::{
    ClientCacheConfig, ClientCapabilities, ChannelCapacity, Implementation, McpClientConfig,
    McpRequestTimeoutPolicy, McpSubscriptionPolicy,
};
use rig_tasks::content::decode_call_result;
use rig_tasks::deferred::ToolExecution;
use rig_tasks::duration::Duration;
use rig_tasks::error::ToolErrorKind;
use rig_tasks::handler::{Discovery, McpClientHandler};
use rig_tasks::json::{Json, JsonMap};
use rig_tasks::listener::{
    spawn_subscription_listener, ListenAction, ListenEvent, SubscriptionEnd, SubscriptionListener,
};
use rig_tasks::model::{
    CallToolResponse, CreateTaskResult, InputRequiredResult, ServerReply, ServiceError, Task,
    TaskStatus,
};
use rig_tasks::result::ToolContext;
use rig_tasks::string_map::StringMap;
use rig_tasks::task::{DispatchMode, McpTaskPolicy, TaskSupport};
use rig_tasks::tool::{
    deferred_or_failed, mrtr_descriptor, task_descriptor, ExecuteStep, McpDeferredPayload, McpTool,
};
use rig_tasks::transport::{
    await_mcp_response, finish_mcp_request, request_deadline, send_mcp_request, AwaitOutcome,
    AwaitStep, SendOutcome, SendStep,
};

fn identity() -> Implementation {
    Implementation::new("test-client".to_owned(), "1.0.0".to_owned())
}

fn config() -> McpClientConfig {
    McpClientConfig::new(identity())
}

fn tool() -> McpTool {
    McpTool::from_mcp_server("fixture_tool".to_owned(), None, Json::empty_object())
}

fn client() -> McpClientState {
    McpClientState::new("mcp:test".to_owned(), 10)
}

fn task(ttl_ms: Option<u64>, created_at: &str) -> Task {
    Task {
        task_id: "task-1".to_owned(),
        status: TaskStatus::Working,
        status_message: None,
        created_at: created_at.to_owned(),
        last_updated_at: created_at.to_owned(),
        ttl_ms,
        poll_interval_ms: Some(500),
    }
}

fn at(secs: u64) -> Duration {
    Duration::from_secs(secs)
}

fn done(step: ExecuteStep) -> ToolExecution {
    match step {
        ExecuteStep::Done(execution) => execution,
        other => panic!("expected the end, got {other:?}"),
    }
}

#[test]
fn client_handler_get_info_delegates() {
    let handler = McpClientHandler::new(
        McpClientConfig::new(identity()).with_client_capabilities(ClientCapabilities::default()),
    );
    let returned = handler.get_info();
    assert_eq!(returned.client_info.name, "test-client");
    assert_eq!(returned.client_info.version, "1.0.0");
}

#[test]
fn canonical_dispatch_classifies_timeout() {
    let error = tool()
        .with_timeout(Some(Duration::from_millis(25)))
        .outcome(Err(ServiceError::Timeout { timeout: at(99) }))
        .expect_err("timeout");
    assert_eq!(error.kind(), ToolErrorKind::Timeout);
    assert_eq!(
        error.message(),
        "MCP tool 'fixture_tool' timed out after 25ms"
    );
    let unbounded = tool()
        .with_timeout(None)
        .outcome(Err(ServiceError::Timeout { timeout: at(3) }))
        .expect_err("timeout");
    assert_eq!(
        unbounded.message(),
        "MCP tool 'fixture_tool' timed out after 3s"
    );
    let failed = tool()
        .outcome(Err(ServiceError::TransportClosed))
        .expect_err("lost");
    assert_eq!(failed.kind(), ToolErrorKind::Provider);
    assert_eq!(
        failed.message(),
        "MCP tool 'fixture_tool' request failed: Transport closed"
    );
}

#[test]
fn canonical_dispatch_rejects_non_object_arguments() {
    for args in ["[1,2]", "\"text\"", "7", "true", "{"] {
        let error = tool().execute_mcp(args, None).expect_err("refused");
        assert_eq!(error.kind(), ToolErrorKind::InvalidArgs);
        assert!(error
            .message()
            .starts_with("MCP tool 'fixture_tool' received invalid arguments: "));
    }
    for args in ["", "null"] {
        let request = tool().execute_mcp(args, None).expect("a call");
        assert!(request.arguments.is_none());
    }
    assert_eq!(
        tool().execute_mcp("[1]", None).expect_err("refused").message(),
        "MCP tool 'fixture_tool' received invalid arguments: expected a JSON object or null, got array"
    );
}

#[test]
fn canonical_dispatch_forwards_context_meta() {
    let mut meta: JsonMap = StringMap::new();
    meta.put(
        "authorization".to_owned(),
        Json::from_compact("\"Bearer test\"".to_owned()),
    );
    meta.put(
        "io.modelcontextprotocol/clientInfo".to_owned(),
        Json::empty_object(),
    );
    let request = tool().execute_mcp("{\"x\": 1}", Some(meta)).expect("a call");
    assert_eq!(request.name, "fixture_tool");
    assert_eq!(request.arguments.expect("arguments").text, "{\"x\":1}");
    let sent = request.meta.expect("metadata");
    assert_eq!(sent.key_list(), vec!["authorization"]);
}

#[test]
fn tools_have_names_and_descriptions() {
    let tool = McpTool::from_mcp_server(
        "search_docs".to_owned(),
        Some("Search the docs".to_owned()),
        Json::empty_object(),
    );
    assert_eq!(tool.name(), "search_docs");
    assert_eq!(tool.description(), "Search the docs");
    assert_eq!(tool.parameters().text, "{}");
    assert_eq!(tool.timeout(), Some(at(300)));
    assert_eq!(self::tool().description(), "");
}

#[test]
fn unavailable_clients_refuse_tools() {
    let mut client = client();
    assert!(tool().require_client(&client).is_ok());
    client.available = false;
    let error = tool().require_client(&client).expect_err("closed");
    assert_eq!(error.kind(), ToolErrorKind::Provider);
    assert_eq!(
        error.message(),
        "MCP tool 'fixture_tool' is unavailable: MCP client is unavailable"
    );
}

#[test]
fn complete_calls_complete_the_execution() {
    let request = tool().execute_mcp("{}", None).expect("a call");
    let result = decode_call_result(&Json::from_compact(
        "{\"content\":[{\"type\":\"text\",\"text\":\"ok\"}]}".to_owned(),
    ))
    .expect("result");
    let mut context = ToolContext::new();
    let execution = done(tool().execute(
        &client(),
        &request,
        Ok(CallToolResponse::Complete(result)),
        &mut context,
    ));
    let ToolExecution::Complete(result) = execution else {
        panic!("expected a complete execution");
    };
    assert_eq!(result.output().as_text(), Some("ok"));
    assert!(context.call_result.is_some());
}

#[test]
fn tasks_are_deferred_with_a_descriptor() {
    let mut meta: JsonMap = StringMap::new();
    meta.put(
        "traceparent".to_owned(),
        Json::from_compact("\"p\"".to_owned()),
    );
    let request = tool().execute_mcp("{}", Some(meta)).expect("a call");
    let mut context = ToolContext::new();
    let step = tool().execute(
        &client(),
        &request,
        Ok(CallToolResponse::Task(CreateTaskResult {
            task: task(Some(60_000), "2026-01-01T00:00:00Z"),
            meta: Some(Json::empty_object()),
        })),
        &mut context,
    );
    assert!(context.created_task.is_some());
    assert!(context.meta.is_some());
    let ExecuteStep::DescribeTask(McpDeferredPayload::Task {
        task_id,
        expires_at_unix_ms,
        poll_interval_ms,
        request_timeout_ms,
        trace_meta,
    }) = step
    else {
        panic!("expected a task payload");
    };
    assert_eq!(task_id, "task-1");
    assert_eq!(expires_at_unix_ms, Some(1_767_225_660_000));
    assert_eq!(poll_interval_ms, Some(500));
    assert_eq!(request_timeout_ms, Some(300_000));
    assert_eq!(trace_meta.key_list(), vec!["traceparent"]);

    let payload = Json::from_compact("{\"kind\":\"task\"}".to_owned());
    let execution = deferred_or_failed(task_descriptor(&client(), "task-1", Ok(payload)));
    let ToolExecution::Deferred(descriptor) = execution else {
        panic!("expected a deferred execution");
    };
    assert_eq!(descriptor.version(), 1);
    assert_eq!(descriptor.backend_type(), "mcp:test");
    assert_eq!(descriptor.execution_id(), "task-1");
    assert_eq!(descriptor.payload().text, "{\"kind\":\"task\"}");
    assert_eq!(
        task_descriptor(&client(), "task-1", Err("no".to_owned()))
            .expect_err("no payload")
            .message(),
        "failed to serialize MCP Task 'task-1': no"
    );
    let mut gone = client();
    gone.transport_closed = true;
    assert!(task_descriptor(&gone, "task-1", Ok(Json::empty_object())).is_err());
}

#[test]
fn undatable_tasks_fail_the_execution() {
    let request = tool().execute_mcp("{}", None).expect("a call");
    let execution = done(tool().execute(
        &client(),
        &request,
        Ok(CallToolResponse::Task(CreateTaskResult {
            task: task(Some(1), "soon"),
            meta: None,
        })),
        &mut ToolContext::new(),
    ));
    let ToolExecution::Complete(result) = execution else {
        panic!("expected a complete execution");
    };
    assert_eq!(
        result.error().expect("failure").kind(),
        ToolErrorKind::Provider
    );
}

#[test]
fn input_rounds_are_deferred_with_a_descriptor() {
    let request = tool().execute_mcp("{\"x\":1}", None).expect("a call");
    let required = || {
        Ok(CallToolResponse::InputRequired(InputRequiredResult {
            input_requests: None,
            request_state: Some("state".to_owned()),
            meta: None,
        }))
    };
    let mut context = ToolContext::new();
    let step = tool().execute(&client(), &request, required(), &mut context);
    assert!(context.input_required.is_some());
    let ExecuteStep::DescribeMrtr(McpDeferredPayload::Mrtr {
        tool_name,
        arguments,
        request_state,
        input_requests,
        round,
        max_rounds,
        ..
    }) = step
    else {
        panic!("expected an MRTR payload");
    };
    assert_eq!(tool_name, "fixture_tool");
    assert_eq!(arguments.expect("arguments").text, "{\"x\":1}");
    assert_eq!(request_state.as_deref(), Some("state"));
    assert!(input_requests.is_empty());
    assert_eq!((round, max_rounds), (1, 10));
    let descriptor = mrtr_descriptor("mcp:test", "generated".to_owned(), Ok(Json::empty_object()))
        .expect("descriptor");
    assert_eq!(descriptor.execution_id(), "generated");
    assert_eq!(
        mrtr_descriptor("mcp:test", "x".to_owned(), Err("no".to_owned()))
            .expect_err("no payload")
            .message(),
        "failed to serialize MCP MRTR state: no"
    );

    let mut gone = client();
    gone.available = false;
    let execution = done(tool().execute(&gone, &request, required(), &mut ToolContext::new()));
    assert!(matches!(execution, ToolExecution::Complete(result) if result.error().is_some()));
    let execution = done(tool().execute(
        &client(),
        &request,
        Ok(CallToolResponse::Unsupported),
        &mut ToolContext::new(),
    ));
    assert!(matches!(
        execution,
        ToolExecution::Complete(result)
            if result.error().expect("failure").message()
                == "MCP tools/call returned an unsupported result type"
    ));
}

fn definition(name: &str) -> ToolDefinition {
    ToolDefinition {
        name: name.to_owned(),
        description: None,
        parameters: Json::empty_object(),
    }
}

fn page(names: &[&str], next: Option<&str>) -> ToolListPage {
    ToolListPage {
        tools: names.iter().map(|name| definition(name)).collect(),
        next_cursor: next.map(str::to_owned),
        ttl_ms: Some(30_000),
        cache_scope: Some("private".to_owned()),
        result_type: Some("complete".to_owned()),
    }
}

fn names(fetch: ToolFetch) -> Vec<String> {
    fetch
        .into_tools(Some(at(7)))
        .iter()
        .map(|tool| {
            assert_eq!(tool.timeout(), Some(at(7)));
            tool.name()
        })
        .collect()
}

#[test]
fn paginated_catalog_preserves_server_order_and_cursor_chain() {
    let mut fetch = ToolFetch::fetch_tools(at(30), at(0));
    let mut seen = Vec::new();
    seen.push(fetch.next_request(at(1)).expect("request").0);
    assert!(matches!(
        fetch.page(PageOutcome::Page(page(&["tool_b", "tool_a"], Some("page-2")))),
        FetchProgress::More
    ));
    let (cursor, within) = fetch.next_request(at(2)).expect("request");
    assert_eq!(within, at(28));
    seen.push(cursor);
    assert!(matches!(
        fetch.page(PageOutcome::Page(page(&["tool_c"], None))),
        FetchProgress::Done
    ));
    assert_eq!(seen, vec![None, Some("page-2".to_owned())]);
    assert_eq!(names(fetch), vec!["tool_b", "tool_a", "tool_c"]);
}

#[test]
fn invalid_cursor_discards_cached_pages_and_restarts_from_the_beginning() {
    let mut fetch = ToolFetch::fetch_tools(at(30), at(0));
    let mut seen = Vec::new();
    for outcome in [
        PageOutcome::Page(page(&["stale"], Some("expired"))),
        PageOutcome::Failed(ServiceError::UnexpectedResponse),
        PageOutcome::Page(page(&["fresh_a"], Some("fresh-page-2"))),
        PageOutcome::Page(page(&["fresh_b"], None)),
    ] {
        seen.push(fetch.next_request(at(0)).expect("request").0);
        fetch.page(outcome);
    }
    assert_eq!(
        seen,
        vec![
            None,
            Some("expired".to_owned()),
            None,
            Some("fresh-page-2".to_owned()),
        ]
    );
    assert_eq!(names(fetch), vec!["fresh_a", "fresh_b"]);
}

#[test]
fn a_second_cursor_failure_or_a_first_page_failure_is_final() {
    let failed = || PageOutcome::Failed(ServiceError::TransportClosed);
    let mut fetch = ToolFetch::fetch_tools(at(30), at(0));
    assert!(matches!(
        fetch.page(failed()),
        FetchProgress::Failed(McpClientError::ToolFetchError(_))
    ));
    let mut fetch = ToolFetch::fetch_tools(at(30), at(0));
    fetch.page(PageOutcome::Page(page(&["a"], Some("2"))));
    assert!(matches!(fetch.page(failed()), FetchProgress::More));
    fetch.page(PageOutcome::Page(page(&["b"], Some("3"))));
    assert!(matches!(
        fetch.page(failed()),
        FetchProgress::Failed(McpClientError::ToolFetchError(_))
    ));
}

#[test]
fn final_catalog_requires_cache_hints_on_every_page() {
    for hole in 0..3 {
        let mut bad = page(&["uncached"], None);
        match hole {
            0 => bad.ttl_ms = None,
            1 => bad.cache_scope = None,
            _ => bad.result_type = Some("partial".to_owned()),
        }
        let mut fetch = ToolFetch::fetch_tools(at(30), at(0));
        fetch.page(PageOutcome::Page(page(&["a"], Some("2"))));
        let FetchProgress::Failed(error) = fetch.page(PageOutcome::Page(bad)) else {
            panic!("expected a failure");
        };
        if hole < 2 {
            assert!(matches!(error, McpClientError::MissingToolListCacheHints));
        } else {
            assert!(matches!(error, McpClientError::InvalidToolListResultType));
        }
    }
}

#[test]
fn initial_tool_fetch_is_bounded_by_the_refresh_timeout() {
    let handler = McpClientHandler::new(config()).with_refresh_timeout(Duration::from_millis(25));
    let mut fetch = handler.fetch_tools(at(100));
    assert!(fetch.next_request(at(100)).is_ok());
    assert!(matches!(
        fetch.next_request(at(101)),
        Err(McpClientError::ToolFetchTimeout(limit)) if limit == Duration::from_millis(25)
    ));
    assert!(matches!(
        fetch.page(PageOutcome::TimedOut),
        FetchProgress::Failed(McpClientError::ToolFetchTimeout(_))
    ));
}

#[test]
fn refresh_activity_is_bounded_and_coalesces_excess_notifications() {
    let mut activity = RefreshActivity::new();
    assert!(activity.try_start_refresh());
    assert!(activity.try_start_refresh());
    assert!(!activity.try_start_refresh());
    assert!(!activity.try_start_refresh());
    assert!(activity.finish_or_restart_refresh());
    assert!(!activity.finish_or_restart_refresh());
    assert!(!activity.finish_or_restart_refresh());
    assert!(activity.try_start_refresh());
}

fn registered(name: &str) -> StringMap<u64> {
    let mut map = StringMap::new();
    map.put(name.to_owned(), 1);
    map
}

#[test]
fn concurrent_refreshes_cannot_roll_back_a_newer_tool_list() {
    let mut state = ManagedToolsState::new();
    assert!(state.commit_initial(1, registered("initial")));
    assert!(state.accepts(3));
    assert!(state.commit_refresh(3, registered("newer")));
    assert!(!state.commit_refresh(2, registered("older")));
    assert!(!state.commit_refresh(3, registered("again")));
    assert_eq!(state.registrations().key_list(), vec!["newer"]);
    assert_eq!(state.remove_owned().key_list(), vec!["newer"]);
    assert!(state.registrations().is_empty());
    let mut counter = 0u64;
    assert_eq!(begin_refresh(&mut counter), 1);
    assert_eq!(begin_refresh(&mut counter), 2);
}

#[test]
fn handlers_number_their_refreshes() {
    let mut handler = McpClientHandler::new(config());
    assert_eq!(handler.begin_refresh(), 1);
    assert!(handler.commit_initial(1, registered("a")));
    assert_eq!(handler.refresh_from_subscription(), Some(2));
    assert_eq!(handler.refresh_from_subscription(), Some(3));
    assert_eq!(handler.refresh_from_subscription(), None);
    assert!(handler.commit_refresh(3, registered("b")));
    assert!(!handler.commit_refresh(2, registered("c")));
    assert_eq!(handler.finish_refresh(), Some(4));
    assert_eq!(handler.finish_refresh(), None);
    assert!(handler.is_refreshing());
    assert_eq!(handler.finish_refresh(), None);
    assert!(!handler.is_refreshing());
    assert_eq!(handler.managed_tools().registrations().key_list(), vec!["b"]);
    assert_eq!(handler.remove_owned().len(), 1);
}

fn discovery() -> Discovery {
    Discovery {
        supported_versions: vec!["2025-11-25".to_owned(), "2026-07-28".to_owned()],
        supports_tools: true,
        tools_list_changed: Some(true),
        supports_tasks: true,
    }
}

#[test]
fn connections_need_the_protocol_version_and_tools() {
    let handler = McpClientHandler::new(config().with_mrtr_max_rounds(4));
    let info = handler
        .connect(Ok(Some("2026-07-28".to_owned())))
        .expect("negotiated");
    assert_eq!(info.client_info.name, "test-client");
    assert!(matches!(
        handler.connect(Ok(Some("2025-11-25".to_owned()))),
        Err(McpClientError::UnsupportedProtocolVersion)
    ));
    assert!(matches!(
        handler.connect(Ok(None)),
        Err(McpClientError::UnsupportedProtocolVersion)
    ));
    assert!(matches!(
        handler.connect(Err("refused".to_owned())),
        Err(McpClientError::ConnectionError(cause)) if cause == "refused"
    ));
    let state = handler.discovered(Ok(&discovery())).expect("usable");
    assert_eq!(state.deferred_backend_id, "mcp:test-client");
    assert_eq!(state.mrtr_max_rounds, 4);
    let mut old = discovery();
    old.supported_versions.pop();
    assert!(matches!(
        handler.discovered(Ok(&old)),
        Err(McpClientError::UnsupportedProtocolVersion)
    ));
    let mut toolless = discovery();
    toolless.supports_tools = false;
    assert!(matches!(
        handler.discovered(Ok(&toolless)),
        Err(McpClientError::ToolsNotSupported)
    ));
    assert!(matches!(
        handler.discovered(Err("no answer".to_owned())),
        Err(McpClientError::DiscoveryError(_))
    ));
}

#[test]
fn configurations_keep_what_they_are_given() {
    let mut extensions: JsonMap = StringMap::new();
    extensions.put("com.example/x".to_owned(), Json::empty_object());
    let mut capabilities = ClientCapabilities::default();
    capabilities.roots = Some(rig_tasks::config::RootsCapabilities { list_changed: None });
    let config = config()
        .with_enabled_extensions(extensions)
        .with_client_capabilities(capabilities)
        .with_deferred_backend_id("mcp:stable".to_owned())
        .with_cache_policy(ClientCacheConfig {
            enabled: false,
            ..ClientCacheConfig::default()
        })
        .with_request_timeouts(McpRequestTimeoutPolicy {
            tool_call: None,
            ..McpRequestTimeoutPolicy::default()
        })
        .with_subscription_policy(McpSubscriptionPolicy {
            enabled: false,
            ..McpSubscriptionPolicy::default()
        });
    let effective = config.client_capabilities();
    assert!(effective.supports_tasks());
    assert!(effective
        .extensions
        .as_ref()
        .expect("extensions")
        .contains_key("com.example/x"));
    assert!(effective.roots.is_none(), "input categories are reserved");
    assert_eq!(config.deferred_backend_id(), "mcp:stable");
    assert!(!config.cache_policy().enabled);
    assert!(config.request_timeouts().tool_call.is_none());
    assert_eq!(config.request_timeouts().catalog, at(30));
    assert_eq!(config.request_timeouts().shutdown, at(5));
    assert!(!config.subscription_policy().enabled);
    assert_eq!(config.subscription_policy().channel_capacity.get(), 64);
    assert_eq!(
        config.subscription_policy().reconnect_delay,
        Duration::from_millis(250)
    );
    assert_eq!(config.client_identity().name, "test-client");
    assert_eq!(
        config.mrtr_max_rounds(),
        rmcp::model::DEFAULT_MRTR_MAX_ROUNDS
    );
    assert!(ChannelCapacity::new(0).is_none());
    let theirs = rmcp::ClientCacheConfig::default();
    let ours = ClientCacheConfig::default();
    assert_eq!(ours.enabled, theirs.enabled);
    assert_eq!(ours.default_ttl.as_millis(), theirs.default_ttl.as_millis());
    assert_eq!(ours.max_ttl.as_millis(), theirs.max_ttl.as_millis());
    assert_eq!(ours.private_partition, theirs.private_partition);
    assert_eq!(ours.max_entries, theirs.max_entries);
    assert_eq!(ours.serve_stale_on_error, theirs.serve_stale_on_error);
    assert!(effective
        .extensions
        .expect("extensions")
        .contains_key(rmcp::model::TASKS_EXTENSION_ID));
}

fn listener() -> SubscriptionListener {
    spawn_subscription_listener(&McpSubscriptionPolicy::default(), &discovery(), true)
        .expect("listener")
}

#[test]
fn listeners_need_something_to_listen_for() {
    let policy = McpSubscriptionPolicy::default();
    let mut silent = discovery();
    silent.tools_list_changed = None;
    assert!(!spawn_subscription_listener(&policy, &silent, true)
        .expect("tasks alone")
        .supports_tool_changes);
    silent.supports_tasks = false;
    assert!(spawn_subscription_listener(&policy, &silent, true).is_none());
    let mut off = McpSubscriptionPolicy::default();
    off.enabled = false;
    assert!(spawn_subscription_listener(&off, &discovery(), true).is_none());
    assert!(spawn_subscription_listener(&policy, &discovery(), false).is_none());
}

#[test]
fn listeners_follow_the_watched_tasks() {
    let listener = listener();
    let round = |available: bool, ids: &[&str]| {
        listener.step(ListenEvent::Round {
            available,
            task_ids: ids.iter().map(|id| (*id).to_owned()).collect(),
        })
    };
    assert!(matches!(round(false, &["a"]), ListenAction::Stop));
    match round(true, &["a", "b"]) {
        ListenAction::Listen(filter) => {
            assert!(filter.tools_list_changed);
            assert_eq!(filter.task_ids, Some(vec!["a".to_owned(), "b".to_owned()]));
        }
        other => panic!("unexpected {other:?}"),
    }
    match round(true, &[]) {
        ListenAction::Listen(filter) => assert_eq!(filter.task_ids, None),
        other => panic!("unexpected {other:?}"),
    }
    let tasks_only = SubscriptionListener {
        supports_tool_changes: false,
        ..listener
    };
    assert!(matches!(
        tasks_only.step(ListenEvent::Round {
            available: true,
            task_ids: vec![],
        }),
        ListenAction::AwaitInterest
    ));
    assert!(matches!(
        tasks_only.step(ListenEvent::Interest { still_open: true }),
        ListenAction::CancelAndRestart
    ));
    assert!(matches!(
        tasks_only.step(ListenEvent::Interest { still_open: false }),
        ListenAction::ReadEnd
    ));
    assert!(matches!(
        tasks_only.step(ListenEvent::IdleInterest { changed: true }),
        ListenAction::NextRound
    ));
    assert!(matches!(
        tasks_only.step(ListenEvent::IdleInterest { changed: false }),
        ListenAction::Stop
    ));
}

#[test]
fn listeners_react_to_notifications_and_ends() {
    let listener = listener();
    let delay = Duration::from_millis(250);
    assert!(matches!(listener.step(ListenEvent::ToolsChanged), ListenAction::RefreshTools));
    assert!(matches!(
        listener.step(ListenEvent::TaskChanged("t".to_owned())),
        ListenAction::WakeTask(id) if id == "t"
    ));
    assert!(matches!(listener.step(ListenEvent::OtherNotification), ListenAction::AwaitNext));
    assert!(matches!(listener.step(ListenEvent::StreamEnded), ListenAction::ReadEnd));
    assert!(matches!(
        listener.step(ListenEvent::Opened {
            tools_accepted: Some(true),
            tasks_accepted: false,
        }),
        ListenAction::AwaitNext
    ));
    assert!(matches!(
        listener.step(ListenEvent::Opened {
            tools_accepted: None,
            tasks_accepted: false,
        }),
        ListenAction::AwaitInterest
    ));
    for (transport_closed, stops) in [(true, true), (false, false)] {
        let action = listener.step(ListenEvent::OpenFailed { transport_closed });
        if stops {
            assert!(matches!(action, ListenAction::Stop));
        } else {
            assert!(matches!(action, ListenAction::SleepThenRound(span) if span == delay));
        }
    }
    for (end, reopens) in [
        (SubscriptionEnd::Graceful, false),
        (SubscriptionEnd::Cancelled, false),
        (SubscriptionEnd::Abrupt, true),
        (SubscriptionEnd::Lagged, true),
        (SubscriptionEnd::Unreported, true),
        (SubscriptionEnd::Unknown, false),
    ] {
        let action = listener.step(ListenEvent::Closed {
            end,
            connection_lost: false,
        });
        if reopens {
            assert!(matches!(action, ListenAction::SleepThenRound(span) if span == delay));
        } else {
            assert!(matches!(action, ListenAction::Stop));
        }
        assert!(matches!(
            listener.step(ListenEvent::Closed {
                end,
                connection_lost: true,
            }),
            ListenAction::Stop
        ));
    }
}

#[test]
fn requests_keep_their_deadline() {
    let deadline = request_deadline(Some(at(10)), at(100));
    assert!(matches!(send_mcp_request(&deadline, at(104)), SendStep::Within(left) if left == at(6)));
    assert!(matches!(
        send_mcp_request(&deadline, at(110)),
        SendStep::Fail(ServiceError::Timeout { timeout }) if timeout == at(10)
    ));
    assert!(matches!(
        await_mcp_response(&deadline, SendOutcome::Sent, at(107)),
        AwaitStep::Within(left) if left == at(3)
    ));
    assert!(matches!(
        await_mcp_response(&deadline, SendOutcome::TimedOut, at(110)),
        AwaitStep::Fail(ServiceError::Timeout { .. })
    ));
    assert!(matches!(
        await_mcp_response(&deadline, SendOutcome::Failed(ServiceError::TransportClosed), at(101)),
        AwaitStep::Fail(ServiceError::TransportClosed)
    ));
    let (result, cancel) = finish_mcp_request(&deadline, AwaitOutcome::TimedOut);
    assert!(cancel);
    assert!(matches!(result, Err(ServiceError::Timeout { timeout }) if timeout == at(10)));
    let (result, cancel) = finish_mcp_request(&deadline, AwaitOutcome::Dropped);
    assert!(!cancel);
    assert!(matches!(result, Err(ServiceError::TransportClosed)));
    let (result, cancel) = finish_mcp_request(&deadline, AwaitOutcome::Reply(ServerReply::Empty));
    assert!(!cancel && result.is_ok());

    let unbounded = request_deadline(None, at(0));
    assert!(matches!(send_mcp_request(&unbounded, at(9)), SendStep::Unbounded));
    assert!(matches!(
        await_mcp_response(&unbounded, SendOutcome::Sent, at(9)),
        AwaitStep::Unbounded
    ));
}

#[test]
fn optional_tool_policy_matrix() {
    let optional = Some(TaskSupport::Optional);
    assert_eq!(
        McpTaskPolicy::Required.dispatch_mode(optional, true),
        DispatchMode::Plain
    );
    assert_eq!(
        McpTaskPolicy::Preferred.dispatch_mode(optional, true),
        DispatchMode::Task
    );
    assert_eq!(
        McpTaskPolicy::Preferred.dispatch_mode(optional, false),
        DispatchMode::Plain
    );
    assert_eq!(
        McpTaskPolicy::Never.dispatch_mode(optional, true),
        DispatchMode::Plain
    );
    for forbidden in [None, Some(TaskSupport::Forbidden)] {
        assert_eq!(
            McpTaskPolicy::Preferred.dispatch_mode(forbidden, true),
            DispatchMode::Plain
        );
    }
}

#[test]
fn required_tool_with_policy_never_fails_fast() {
    let required = Some(TaskSupport::Required);
    let mode = McpTaskPolicy::Never.dispatch_mode(required, true);
    let failure = mode.refusal("needs a task".to_owned()).expect("refused");
    assert_eq!(failure.kind(), ToolErrorKind::Other);
    assert_eq!(failure.code(), Some("mcp_task_required"));
    assert_eq!(failure.retryable(), Some(false));
    assert_eq!(
        McpTaskPolicy::default().dispatch_mode(required, true),
        DispatchMode::Task
    );
    let missing = McpTaskPolicy::Preferred.dispatch_mode(required, false);
    let failure = missing.refusal("no tasks".to_owned()).expect("refused");
    assert_eq!(failure.kind(), ToolErrorKind::Provider);
    assert_eq!(failure.code(), Some("mcp_task_capability_missing"));
    assert!(DispatchMode::Plain.refusal(String::new()).is_none());
}

use rig_tasks::descriptor::ToolTaskDescriptor;
use rig_tasks::duration::Duration;
use rig_tasks::error::ToolErrorKind;
use rig_tasks::mocks::{
    mock_math_toolset, MockAddTool, MockDeniedTool, MockExampleTool, MockExtensionsProbeTool,
    MockFailingTool, MockHandledFailureTool, MockImageGeneratorTool, MockImageOutputTool,
    MockMetadataTool, MockObjectOutputTool, MockOperationArgs, MockStringOutputTool,
    MockSubtractTool, MockTaskResumer, MockTaskState, MockTaskTool, MockToolError, MockToolIndex,
    SessionId, ToolOutcome,
};
use rig_tasks::output::ToolOutput;
use rig_tasks::result::ToolResult;
use rig_tasks::status::ToolTaskStatus;
use rig_tasks::task::{TaskResumer, ToolDispatch, ToolTaskHandle};

fn value(text: &str) -> serde_json::Value {
    serde_json::from_str(text).expect("fixture JSON")
}

#[test]
fn arithmetic_tools_compute() {
    let args = MockOperationArgs { x: 7, y: 5 };
    assert_eq!(MockAddTool.call(args).expect("sum"), 12);
    assert_eq!(MockSubtractTool.call(args).expect("difference"), 2);
    assert_eq!(MockAddTool::NAME, "add");
    assert_eq!(MockSubtractTool.description(), "Subtract y from x");
    assert_eq!(
        value(&MockAddTool.parameters().text),
        value(
            "{\"type\": \"object\", \"properties\": {
                \"x\": {\"type\": \"number\", \"description\": \"The first number to add\"},
                \"y\": {\"type\": \"number\", \"description\": \"The second number to add\"}
            }, \"required\": [\"x\", \"y\"]}"
        )
    );
    let set = mock_math_toolset();
    assert_eq!(set.len(), 2);
    assert!(set.contains("add") && set.contains("subtract") && !set.contains("multiply"));
    let shown = format!("{set:?}");
    for definition in [MockAddTool.definition(), MockSubtractTool.definition()] {
        assert!(shown.contains(&format!("{definition:?}")));
    }
    assert_eq!(MockToolError.to_string(), "Mock tool error");
}

#[test]
fn probes_record_what_they_observe() {
    let mut probe = MockExtensionsProbeTool::default();
    assert_eq!(probe.observed(), None);
    assert_eq!(
        probe
            .call_with_extensions(Some(&SessionId("s-1".to_owned())))
            .expect("output"),
        "session:s-1"
    );
    assert_eq!(probe.call_with_extensions(None).expect("output"), "no-session");
    assert_eq!(probe.observed().as_deref(), Some("no-session"));
    assert_eq!(probe.call().expect("output"), "call-no-context");
    assert_eq!(
        probe.observations(),
        vec!["session:s-1", "no-session", "call-no-context"]
    );
}

#[test]
fn output_tools_return_fixed_values() {
    assert_eq!(MockStringOutputTool.call().expect("output"), "Hello\nWorld");
    assert_eq!(MockExampleTool.call().expect("output"), "Example answer");
    // Compact JSON, exactly as serde_json renders it.
    let image = MockImageOutputTool.call().expect("output");
    assert_eq!(value(&image).to_string(), image);
    assert_eq!(
        value(&image),
        value("{\"type\": \"image\", \"data\": \"base64data==\", \"mimeType\": \"image/png\"}")
    );
    let generated = MockImageGeneratorTool.call().expect("output");
    assert_eq!(value(&generated).to_string(), generated);
    assert_eq!(value(&generated)["mimeType"], "image/png");
    let object = MockObjectOutputTool.call().expect("output");
    assert_eq!(
        value(&object.text),
        value("{\"status\": \"ok\", \"count\": 42}")
    );
    let index = MockToolIndex::new(vec!["b".to_owned(), "a".to_owned()]);
    assert_eq!(index.top_n_ids(), vec!["b", "a"]);
}

#[test]
fn failing_tools_classify_their_failure() {
    for (kind, http_status) in [
        (ToolErrorKind::Timeout, None),
        (ToolErrorKind::NotFound, Some(404)),
        (ToolErrorKind::RateLimited, Some(429)),
        (ToolErrorKind::Provider, None),
    ] {
        let tool = MockFailingTool::new(kind);
        let error = tool.call().expect_err("always fails");
        let failure = tool.classify_error(&error);
        assert_eq!(failure.kind, kind);
        assert_eq!(failure.http_status, http_status);
        assert_eq!(failure.message, "mock tool call failed");
    }
}

#[test]
fn structured_tools_tell_how_it_went() {
    let handled = MockHandledFailureTool.call_structured().expect("return");
    assert_eq!(handled.output, "no record found for id 42; try a different id");
    match handled.outcome {
        ToolOutcome::Failed(failure) => {
            assert_eq!(failure.message, "record id 42 is missing");
            assert_eq!(failure.http_status, Some(404));
        }
        other => panic!("unexpected {other:?}"),
    }
    let denied = MockDeniedTool.call_structured().expect("return");
    assert!(matches!(denied.outcome, ToolOutcome::Denied));
    let with_meta = MockMetadataTool.call_structured().expect("return");
    assert_eq!(with_meta.output, "done");
    assert_eq!(with_meta.request_id.expect("request id").0, "req-7");
    assert_eq!(MockHandledFailureTool.call().expect("output"), "no record found for id 42");
}

#[test]
fn mock_tasks_follow_their_script() {
    let tool = MockTaskTool::new("t-1".to_owned()).with_immediate_response("hold on".to_owned());
    let tool = tool.clone();
    assert_eq!(tool.call().expect_err("dispatch only").kind(), ToolErrorKind::Other);
    let handle = match tool.dispatch_structured().resolve() {
        Err(handle) => handle,
        Ok(_) => panic!("expected a deferred call"),
    };
    assert_eq!(handle.task_id(), "t-1");
    assert_eq!(handle.immediate_response(), Some("hold on"));
    assert_eq!(handle.poll_hint(), Some(Duration::from_millis(20)));
    let descriptor = handle.descriptor();
    assert_eq!(descriptor.backend, "mock");
    assert_eq!(descriptor.tool_name, "mock_task");

    let mut state = MockTaskState::new();
    assert_eq!(handle.status(&mut state).expect("status"), ToolTaskStatus::Working);
    state.set_statuses(vec![ToolTaskStatus::InputRequired, ToolTaskStatus::Working]);
    assert_eq!(handle.status(&mut state).expect("status"), ToolTaskStatus::InputRequired);
    assert_eq!(handle.status(&mut state).expect("status"), ToolTaskStatus::Working);
    assert!(handle.wait(&mut state).is_none());
    state.complete("output".to_owned());
    let result = handle.wait(&mut state).expect("result");
    assert_eq!(result.output().as_text(), Some("output"));
    handle.cancel(&mut state).expect("cancelled");
    assert_eq!(state.cancel_count(), 1);
    assert_eq!(handle.status(&mut state).expect("status"), ToolTaskStatus::Cancelled);
    let result = handle.wait(&mut state).expect("result");
    assert_eq!(result.error().expect("failure").message(), "output");
}

#[test]
fn mock_resumers_claim_mock_tasks() {
    let mut script = MockTaskState::new();
    script.complete("resumed output".to_owned());
    let mut resumer = MockTaskResumer::new(script);
    let mine = ToolTaskDescriptor::new("mock".to_owned(), "t-1".to_owned(), "mock_task".to_owned());
    let other = ToolTaskDescriptor::new("mcp".to_owned(), "t-2".to_owned(), "x".to_owned());
    let handle = resumer.resume(&mine).expect("answer").expect("mine");
    assert_eq!(handle.task_id(), "t-1");
    let result = handle.wait(&mut resumer.state).expect("result");
    assert_eq!(result.output().as_text(), Some("resumed output"));
    assert!(resumer.resume(&other).expect("answer").is_none());
    assert_eq!(resumer.seen.len(), 2);
}

#[test]
fn completed_dispatches_pass_through() {
    let completed: ToolDispatch<()> =
        ToolDispatch::Completed(ToolResult::success(ToolOutput::text("done".to_owned())));
    let result = completed.resolve().expect("final");
    assert_eq!(result.output().as_text(), Some("done"));
}

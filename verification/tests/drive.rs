use rig_tasks::drive::{
    cancel_grace, cancel_task_handle, drive_task, DriveAction, DriveInput, PauseEnd, PendingTask,
    TaskCompletionPolicy, TaskDrive, TaskDriveConfig, TaskResolvedEvent, TaskWake,
};
use rig_tasks::duration::Duration;
use rig_tasks::error::{ToolErrorKind, ToolExecutionError};
use rig_tasks::output::ToolOutput;
use rig_tasks::result::{ToolContext, ToolTaskResult};
use rig_tasks::status::ToolTaskStatus;
use rig_tasks::task_table::TaskTable;

fn pending(id: &str) -> PendingTask {
    PendingTask {
        internal_call_id: id.to_owned(),
        tool_name: "wait_driven".to_owned(),
        tool_use_id: "call-1".to_owned(),
        call_id: None,
        task_id: "wait-driven-task".to_owned(),
        args: "{}".to_owned(),
        policy: TaskCompletionPolicy::JoinTurn,
        last_status: None,
    }
}

fn drive() -> TaskDrive {
    drive_task(&pending("internal-call-1"), None, None)
}

fn resolved(action: DriveAction) -> (TaskResolvedEvent, bool) {
    match action {
        DriveAction::Resolve(event) => (event, false),
        DriveAction::CancelThenResolve(event) => (event, true),
        other => panic!("expected the end, got {other:?}"),
    }
}

fn reported(action: DriveAction) -> Option<ToolTaskStatus> {
    match action {
        DriveAction::Pause { event, .. } => event.map(|event| event.status),
        other => panic!("expected a pause, got {other:?}"),
    }
}

#[test]
fn result_future_drives_a_task_whose_status_stays_working() {
    let mut drive = drive();
    assert!(matches!(drive.step(DriveInput::Launched), DriveAction::OpenResult));
    assert!(matches!(drive.step(DriveInput::Round(None)), DriveAction::Race));
    assert_eq!(
        reported(drive.step(DriveInput::Wake(TaskWake::Status(ToolTaskStatus::Working)))),
        Some(ToolTaskStatus::Working)
    );
    let done = ToolTaskResult::success(ToolOutput::text("done".to_owned()));
    let (event, cancel) = resolved(drive.step(DriveInput::Paused(PauseEnd::Result(done))));
    assert!(!cancel);
    assert_eq!(event.result.status(), ToolTaskStatus::Completed);
    assert_eq!(event.result.result().output().as_text(), Some("done"));
    assert_eq!(event.internal_call_id, "internal-call-1");
    assert_eq!(event.tool_use_id, "call-1");
    assert_eq!(event.task_id, "wait-driven-task");
    assert_eq!(event.args, "{}");
}

#[test]
fn statuses_are_reported_on_change_only() {
    let mut drive = drive();
    let mut seen = Vec::new();
    for status in [
        ToolTaskStatus::Working,
        ToolTaskStatus::Working,
        ToolTaskStatus::InputRequired,
        ToolTaskStatus::InputRequired,
        ToolTaskStatus::Working,
        ToolTaskStatus::Completed,
        ToolTaskStatus::Failed,
    ] {
        if let Some(status) = reported(drive.step(DriveInput::Wake(TaskWake::Status(status)))) {
            seen.push(status);
        }
    }
    assert_eq!(
        seen,
        vec![
            ToolTaskStatus::Working,
            ToolTaskStatus::InputRequired,
            ToolTaskStatus::Working,
        ]
    );
}

#[test]
fn a_lost_task_resolves_and_a_transient_failure_does_not() {
    let mut drive = drive();
    assert_eq!(
        reported(drive.step(DriveInput::Wake(TaskWake::StatusFailed(
            ToolExecutionError::network("lost".to_owned())
        )))),
        None
    );
    let (event, cancel) = resolved(drive.step(DriveInput::Wake(TaskWake::StatusFailed(
        ToolExecutionError::not_found("gone".to_owned()),
    ))));
    assert!(!cancel);
    assert_eq!(event.result.status(), ToolTaskStatus::Failed);
    assert_eq!(
        event.result.result().error().expect("failure").kind(),
        ToolErrorKind::NotFound
    );
}

#[test]
fn a_cancelled_task_is_cancelled_at_its_backend() {
    let mut drive = drive();
    let (event, cancel) = resolved(drive.step(DriveInput::Round(Some("stop".to_owned()))));
    assert!(cancel);
    assert_eq!(event.result.status(), ToolTaskStatus::Cancelled);
    let failure = event.result.result().error().expect("failure");
    assert_eq!(failure.kind(), ToolErrorKind::Cancelled);
    assert_eq!(failure.message(), "stop");
}

#[test]
fn a_deadline_between_rounds_ends_the_task_in_the_next() {
    let mut drive = drive();
    assert!(matches!(
        drive.step(DriveInput::Paused(PauseEnd::Tick)),
        DriveAction::NextRound
    ));
    assert!(matches!(
        drive.step(DriveInput::Paused(PauseEnd::Deadline)),
        DriveAction::NextRound
    ));
    let (event, cancel) = resolved(drive.step(DriveInput::Round(Some("stop".to_owned()))));
    assert!(cancel);
    let failure = event.result.result().error().expect("failure");
    assert_eq!(failure.kind(), ToolErrorKind::Timeout);
    assert_eq!(
        failure.message(),
        "deferred task `wait-driven-task` for tool `wait_driven` exceeded its deadline and was cancelled"
    );
    let (direct, _) = resolved(self::drive().step(DriveInput::Wake(TaskWake::Deadline)));
    assert_eq!(direct.result.status(), ToolTaskStatus::Cancelled);
}

#[test]
fn the_result_is_opened_once_and_status_requests_wait_for_the_interval() {
    let mut drive = drive();
    assert!(matches!(drive.step(DriveInput::Launched), DriveAction::OpenResult));
    assert!(matches!(drive.step(DriveInput::Launched), DriveAction::NextRound));
    assert!(matches!(drive.step(DriveInput::Round(None)), DriveAction::Race));
    match drive.step(DriveInput::Wake(TaskWake::Status(ToolTaskStatus::Working))) {
        DriveAction::Pause { interval, .. } => assert_eq!(interval, Duration::from_secs(2)),
        other => panic!("expected a pause, got {other:?}"),
    }
    assert!(matches!(
        drive.step(DriveInput::Paused(PauseEnd::Tick)),
        DriveAction::NextRound
    ));
    assert!(matches!(drive.step(DriveInput::Round(None)), DriveAction::Race));
}

#[test]
fn a_cancellation_ends_a_pause_and_nothing_follows_the_end() {
    let mut drive = drive();
    drive.step(DriveInput::Wake(TaskWake::Status(ToolTaskStatus::Working)));
    let (event, cancel) =
        resolved(drive.step(DriveInput::Paused(PauseEnd::Cancelled("stop".to_owned()))));
    assert!(cancel);
    assert_eq!(event.result.status(), ToolTaskStatus::Cancelled);
    assert_eq!(
        event.result.result().error().expect("failure").message(),
        "stop"
    );
    for input in [
        DriveInput::Launched,
        DriveInput::Round(None),
        DriveInput::Wake(TaskWake::Deadline),
        DriveInput::Paused(PauseEnd::Tick),
    ] {
        assert!(matches!(drive.step(input), DriveAction::Ended));
    }
}

#[test]
fn poll_cadence_prefers_the_handle() {
    let hint = Some(Duration::from_millis(20));
    let fallback = Some(Duration::from_secs(9));
    assert_eq!(
        drive_task(&pending("a"), hint, fallback).poll_interval,
        Duration::from_millis(20)
    );
    assert_eq!(
        drive_task(&pending("a"), None, fallback).poll_interval,
        Duration::from_secs(9)
    );
    assert_eq!(
        drive_task(&pending("a"), None, None).poll_interval,
        Duration::from_secs(2)
    );
}

#[test]
fn a_stuck_cancellation_times_out() {
    let error = cancel_task_handle("t", None).expect_err("too slow");
    assert_eq!(error.kind(), ToolErrorKind::Timeout);
    assert_eq!(
        error.message(),
        "cancelling deferred task `t` exceeded 5s"
    );
    assert!(cancel_task_handle("t", Some(Ok(()))).is_ok());
    assert_eq!(
        cancel_task_handle("t", Some(Err(ToolExecutionError::network("lost".to_owned()))))
            .expect_err("lost")
            .kind(),
        ToolErrorKind::Network
    );
    assert_eq!(cancel_grace(), Duration::from_secs(5));
}

#[test]
fn tables_keep_track_of_live_tasks() {
    let mut table = TaskTable::new();
    assert!(table.is_empty());
    let drive = table.launch(
        &pending("a"),
        None,
        TaskDriveConfig::default(),
        ToolContext::new(),
    );
    assert_eq!(drive.poll_interval, Duration::from_secs(2));
    let mut context = ToolContext::new();
    context.structured = Some(rig_tasks::json::Json::empty_object());
    table.launch(&pending("b"), None, TaskDriveConfig::default(), context);
    assert!(!table.is_empty());
    assert!(table.is_live("a") && table.is_live("b") && !table.is_live("c"));

    table.cancel_one("a", "enough".to_owned());
    table.cancel_one("c", "nobody".to_owned());
    assert_eq!(table.cancel_reason("a").as_deref(), Some("enough"));
    assert_eq!(table.cancel_reason("b"), None);
    assert!(!table.is_live("c"));

    assert!(table.finish("b").expect("context").structured.is_some());
    assert!(table.finish("b").is_none());
    assert!(!table.is_live("b"));
    table.driver_ended();

    assert!(table.graceful_cancel("bye"));
    assert_eq!(table.cancel_reason("a").as_deref(), Some("bye"));
    table.driver_ended();
    table.end_graceful_cancel();
    assert!(!table.is_live("a"));
    assert!(table.is_empty());
    assert!(!table.graceful_cancel("again"));
}

#[test]
fn undrained_drivers_are_dropped_after_a_graceful_cancellation() {
    let mut table = TaskTable::new();
    table.launch(
        &pending("stuck"),
        None,
        TaskDriveConfig::default(),
        ToolContext::new(),
    );
    assert!(table.graceful_cancel("stop"));
    table.end_graceful_cancel();
    assert!(table.is_empty());
    assert!(!table.is_live("stuck"));
}

#[test]
fn detached_tables_are_empty() {
    let mut table = TaskTable::new();
    for id in ["a", "b", "c"] {
        table.launch(
            &pending(id),
            None,
            TaskDriveConfig::default(),
            ToolContext::new(),
        );
    }
    assert!(table.graceful_cancel("stop"));
    for id in ["a", "b", "c"] {
        assert_eq!(table.cancel_reason(id).as_deref(), Some("stop"));
    }
    table.detach();
    assert!(table.is_empty());
    assert!(!table.is_live("a"));
}

use rig_tasks::status::ToolTaskStatus;
use rig_tasks::model::TaskStatus;
use rig_tasks::task_handle::convert_status;

#[test]
fn status_terminality_and_names() {
    let table = [
        (ToolTaskStatus::Working, "working", false),
        (ToolTaskStatus::InputRequired, "input_required", false),
        (ToolTaskStatus::Completed, "completed", true),
        (ToolTaskStatus::Failed, "failed", true),
        (ToolTaskStatus::Cancelled, "cancelled", true),
    ];
    for (status, name, terminal) in table {
        assert_eq!(status.as_str(), name);
        assert_eq!(status.to_string(), name);
        assert_eq!(status.is_terminal(), terminal, "terminality of {name}");
    }
}

#[test]
fn convert_status_covers_all_known_variants() {
    let cases = [
        (TaskStatus::Working, ToolTaskStatus::Working),
        (TaskStatus::InputRequired, ToolTaskStatus::InputRequired),
        (TaskStatus::Completed, ToolTaskStatus::Completed),
        (TaskStatus::Failed, ToolTaskStatus::Failed),
        (TaskStatus::Cancelled, ToolTaskStatus::Cancelled),
    ];
    for (reported, expected) in cases {
        assert_eq!(convert_status(&reported), expected);
    }
}

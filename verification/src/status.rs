//! Lifecycle status of deferred tool tasks.

use vstd::prelude::*;
use vstd::string::*;

verus! {

/// Lifecycle status of a deferred tool task.
#[derive(Debug, Clone, Copy, PartialEq, Eq, Hash, Structural)]
#[non_exhaustive]
pub enum ToolTaskStatus {
    /// The backend accepted the call and is working on it.
    Working,
    /// The backend requires additional input before work can continue.
    InputRequired,
    /// The task completed; the result payload is retrievable.
    Completed,
    /// The task failed and will not continue.
    Failed,
    /// The task was cancelled and will not continue.
    Cancelled,
}

impl DeepView for ToolTaskStatus {
    type V = ToolTaskStatus;

    open spec fn deep_view(&self) -> ToolTaskStatus {
        *self
    }
}

impl ToolTaskStatus {
    /// The stable identifier of the status.
    pub open spec fn spec_name(self) -> Seq<char> {
        match self {
            ToolTaskStatus::Working => "working"@,
            ToolTaskStatus::InputRequired => "input_required"@,
            ToolTaskStatus::Completed => "completed"@,
            ToolTaskStatus::Failed => "failed"@,
            ToolTaskStatus::Cancelled => "cancelled"@,
        }
    }

    /// The statuses after which a task never changes state again.
    pub open spec fn terminal(self) -> bool {
        self is Completed || self is Failed || self is Cancelled
    }

    /// Stable identifier for tracing and metrics.
    pub fn as_str(self) -> (name: &'static str)
        ensures
            name@ == self.spec_name(),
    {
        match self {
            ToolTaskStatus::Working => "working",
            ToolTaskStatus::InputRequired => "input_required",
            ToolTaskStatus::Completed => "completed",
            ToolTaskStatus::Failed => "failed",
            ToolTaskStatus::Cancelled => "cancelled",
        }
    }

    /// The stable identifier as an owned string.
    pub fn to_string(&self) -> (name: String)
        ensures
            name@ == self.spec_name(),
    {
        self.as_str().to_owned()
    }

    /// Whether this status is terminal.
    pub fn is_terminal(self) -> (terminal: bool)
        ensures
            terminal == self.terminal(),
    {
        matches!(
            self,
            ToolTaskStatus::Completed | ToolTaskStatus::Failed | ToolTaskStatus::Cancelled
        )
    }
}

/// A task is over exactly when it neither works nor waits for input, and every status has its own
/// name.
pub proof fn statuses_mean_what_they_say(status: ToolTaskStatus)
    ensures
        status.terminal() <==> !(status is Working) && !(status is InputRequired),
        status is Working ==> status.spec_name() == "working"@,
        status is InputRequired ==> status.spec_name() == "input_required"@,
        status is Completed ==> status.spec_name() == "completed"@,
        status is Failed ==> status.spec_name() == "failed"@,
        status is Cancelled ==> status.spec_name() == "cancelled"@,
{
}

} // verus!

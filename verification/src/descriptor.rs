//! Durable descriptions of deferred tasks.

use vstd::prelude::*;
use vstd::string::*;

use crate::duplicate::Duplicate;

verus! {

/// Durable description of a deferred tool task.
#[derive(Debug)]
pub struct ToolTaskDescriptor {
    /// Which backend can bring the task back, such as `"mcp"`.
    pub backend: String,
    /// Backend-assigned task id.
    pub task_id: String,
    /// The tool that was called.
    pub tool_name: String,
    /// Opaque identity of the backing server.
    pub server_key: Option<String>,
    /// Backend-reported ISO-8601 creation timestamp, verbatim.
    pub created_at: Option<String>,
    /// Retention window in milliseconds; `None` is unlimited.
    pub ttl_ms: Option<u64>,
    /// Backend-suggested polling interval in milliseconds.
    pub poll_interval_ms: Option<u64>,
    /// What the backend wants the model to be told at once.
    pub immediate_response: Option<String>,
}

/// The model of a [`ToolTaskDescriptor`].
#[verifier::ext_equal]
pub struct ToolTaskDescriptorView {
    /// Which backend can bring the task back, such as `"mcp"`.
    pub backend: Seq<char>,
    /// Backend-assigned task id.
    pub task_id: Seq<char>,
    /// The tool that was called.
    pub tool_name: Seq<char>,
    /// Opaque identity of the backing server.
    pub server_key: Option<Seq<char>>,
    /// Backend-reported ISO-8601 creation timestamp, verbatim.
    pub created_at: Option<Seq<char>>,
    /// Retention window in milliseconds; `None` is unlimited.
    pub ttl_ms: Option<u64>,
    /// Backend-suggested polling interval in milliseconds.
    pub poll_interval_ms: Option<u64>,
    /// What the backend wants the model to be told at once.
    pub immediate_response: Option<Seq<char>>,
}

impl DeepView for ToolTaskDescriptor {
    type V = ToolTaskDescriptorView;

    open spec fn deep_view(&self) -> ToolTaskDescriptorView {
        ToolTaskDescriptorView {
            backend: self.backend.deep_view(),
            task_id: self.task_id.deep_view(),
            tool_name: self.tool_name.deep_view(),
            server_key: self.server_key.deep_view(),
            created_at: self.created_at.deep_view(),
            ttl_ms: self.ttl_ms.deep_view(),
            poll_interval_ms: self.poll_interval_ms.deep_view(),
            immediate_response: self.immediate_response.deep_view(),
        }
    }
}

impl Duplicate for ToolTaskDescriptor {
    fn duplicate(&self) -> (copy: Self) {
        ToolTaskDescriptor {
            backend: self.backend.duplicate(),
            task_id: self.task_id.duplicate(),
            tool_name: self.tool_name.duplicate(),
            server_key: self.server_key.duplicate(),
            created_at: self.created_at.duplicate(),
            ttl_ms: self.ttl_ms.duplicate(),
            poll_interval_ms: self.poll_interval_ms.duplicate(),
            immediate_response: self.immediate_response.duplicate(),
        }
    }
}

impl Clone for ToolTaskDescriptor {
    fn clone(&self) -> (copy: Self)
        ensures
            copy.deep_view() == self.deep_view(),
    {
        self.duplicate()
    }
}

impl ToolTaskDescriptor {
    /// The backend of MCP tasks.
    pub const BACKEND_MCP: &'static str = "mcp";

    /// A description with the required fields; the optional ones are absent.
    pub fn new(backend: String, task_id: String, tool_name: String) -> (descriptor:
        ToolTaskDescriptor)
        ensures
            descriptor.deep_view() == (ToolTaskDescriptorView {
                backend: backend@,
                task_id: task_id@,
                tool_name: tool_name@,
                server_key: None,
                created_at: None,
                ttl_ms: None,
                poll_interval_ms: None,
                immediate_response: None,
            }),
    {
        ToolTaskDescriptor {
            backend,
            task_id,
            tool_name,
            server_key: None,
            created_at: None,
            ttl_ms: None,
            poll_interval_ms: None,
            immediate_response: None,
        }
    }
}

} // verus!

//! Values that the `rmcp` crate fixes.

use vstd::prelude::*;
use vstd::string::*;

use crate::duration::Duration;

verus! {

/// The JSON-RPC error code for invalid parameters.
pub open spec fn spec_invalid_params() -> i32 {
    -32602i32
}

/// The JSON-RPC error code for an unknown method.
pub open spec fn spec_method_not_found() -> i32 {
    -32601i32
}

/// The rendering that rmcp gives a request timeout after `secs` seconds and `nanos` nanoseconds.
pub uninterp spec fn rmcp_timeout_rendering(secs: u64, nanos: u32) -> Seq<char>;

/// The rendering that rmcp gives a request timeout after `total` nanoseconds.
pub open spec fn request_timeout_text(total: nat) -> Seq<char> {
    rmcp_timeout_rendering((total / 1_000_000_000) as u64, (total % 1_000_000_000) as u32)
}

/// Reads `rmcp::model::ErrorCode::INVALID_PARAMS`, which holds -32602.
#[verifier::external_body]
pub(crate) fn invalid_params() -> (code: i32)
    ensures
        code == spec_invalid_params(),
{
    rmcp::model::ErrorCode::INVALID_PARAMS.0
}

/// Reads `rmcp::model::ErrorCode::METHOD_NOT_FOUND`, which holds -32601.
#[verifier::external_body]
pub(crate) fn method_not_found() -> (code: i32)
    ensures
        code == spec_method_not_found(),
{
    rmcp::model::ErrorCode::METHOD_NOT_FOUND.0
}

/// Calls `Display` of `rmcp::ServiceError::Timeout` for a span of `secs` seconds and `nanos`
/// nanoseconds. The rendering depends on these two numbers alone; it is known here by name only.
#[verifier::external_body]
fn format_request_timeout(secs: u64, nanos: u32) -> (text: String)
    requires
        nanos < 1_000_000_000,
    ensures
        text@ == rmcp_timeout_rendering(secs, nanos),
{
    rmcp::ServiceError::Timeout { timeout: std::time::Duration::new(secs, nanos) }.to_string()
}

/// The rendering of a request timeout.
pub(crate) fn request_timeout(timeout: &Duration) -> (text: String)
    ensures
        text@ == request_timeout_text(timeout@),
{
    format_request_timeout(timeout.as_secs(), timeout.subsec_nanos())
}

/// The identifier of the Tasks extension.
pub open spec fn spec_tasks_extension_id() -> Seq<char> {
    "io.modelcontextprotocol/tasks"@
}

/// The one protocol version that is spoken.
pub open spec fn spec_protocol_version() -> Seq<char> {
    "2026-07-28"@
}

/// Reads `rmcp::model::TASKS_EXTENSION_ID`, which holds `io.modelcontextprotocol/tasks`.
#[verifier::external_body]
pub(crate) fn tasks_extension_id() -> (id: &'static str)
    ensures
        id@ == spec_tasks_extension_id(),
{
    rmcp::model::TASKS_EXTENSION_ID
}

/// Reads `rmcp::model::ProtocolVersion::V_2026_07_28`, whose text is `2026-07-28`.
#[verifier::external_body]
pub(crate) fn protocol_version_text() -> (version: String)
    ensures
        version@ == spec_protocol_version(),
{
    rmcp::model::ProtocolVersion::V_2026_07_28.as_str().to_owned()
}

/// Reads `rmcp::model::DEFAULT_MRTR_MAX_ROUNDS`, which holds 10.
#[verifier::external_body]
pub(crate) fn default_mrtr_max_rounds() -> (rounds: usize)
    ensures
        rounds == 10,
{
    rmcp::model::DEFAULT_MRTR_MAX_ROUNDS
}

/// Calls `rmcp::ClientCacheConfig::default`. It enables the cache, with a default lifetime of
/// zero, a longest lifetime of one day, no private partition, room for 512 entries, and stale
/// answers where a new one cannot be had. The lifetimes come as whole seconds.
#[verifier::external_body]
pub(crate) fn cache_defaults() -> (defaults: (bool, u64, u64, Option<String>, usize, bool))
    ensures
        defaults == (true, 0u64, 86_400u64, None::<String>, 512usize, true),
{
    let config = rmcp::ClientCacheConfig::default();
    (
        config.enabled,
        config.default_ttl.as_secs(),
        config.max_ttl.as_secs(),
        config.private_partition,
        config.max_entries,
        config.serve_stale_on_error,
    )
}

/// A time limit is rendered by its whole seconds and the nanoseconds beyond them.
pub proof fn time_limits_are_rendered_whole(secs: u64, nanos: u32)
    requires
        nanos < 1_000_000_000,
    ensures
        request_timeout_text((secs * 1_000_000_000 + nanos) as nat) == rmcp_timeout_rendering(
            secs,
            nanos,
        ),
{
    let total = secs * 1_000_000_000 + nanos;
    assert(total / 1_000_000_000 == secs && total % 1_000_000_000 == nanos);
}

} // verus!

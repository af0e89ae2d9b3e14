//! When tasks expire.

use vstd::prelude::*;
use vstd::string::*;

use crate::duration::Duration;
use crate::error::{
    plain_error, ErrorCause, ErrorCauseView, ErrorView, ToolErrorKind, ToolExecutionError,
};
use crate::model::{result_view, Task, TaskView};
use crate::text::{mentions, parts_are_mentioned};

verus! {

/// The Unix time in milliseconds that chrono reads in an RFC 3339 text, or the reader's complaint.
pub uninterp spec fn chrono_rfc3339_millis(text: Seq<char>) -> Result<i64, Seq<char>>;

/// Calls `chrono::DateTime::parse_from_rfc3339` and, on what it gives back,
/// `chrono::DateTime::timestamp_millis`. The number, or the message of the reader's error, depends
/// on the text alone and is known here by name.
#[verifier::external_body]
fn read_rfc3339_millis(text: &str) -> (millis: Result<i64, String>)
    ensures
        match chrono_rfc3339_millis(text@) {
            Ok(value) => millis == Ok::<i64, String>(value),
            Err(message) => millis matches Err(m) && m@ == message,
        },
{
    match chrono::DateTime::parse_from_rfc3339(text) {
        Ok(time) => Ok(time.timestamp_millis()),
        Err(error) => Err(error.to_string()),
    }
}

/// `MCP Task '<id>'` with `rest` behind it, as a provider failure.
pub open spec fn expiry_error(task_id: Seq<char>, rest: Seq<char>) -> ErrorView {
    plain_error(ToolErrorKind::Provider, "MCP Task '"@ + task_id + rest)
}

/// When a task expires that lives `ttl_ms` milliseconds from `created`.
pub open spec fn expiry_from_creation(
    task_id: Seq<char>,
    ttl_ms: u64,
    created: Result<i64, Seq<char>>,
) -> Result<Option<i64>, ErrorView> {
    match created {
        Err(message) => Err(
            expiry_error(task_id, "' has an invalid createdAt timestamp: "@ + message).caused_by(
                ErrorCauseView::Timestamp(message),
            ),
        ),
        Ok(created) => if ttl_ms > i64::MAX {
            Err(
                expiry_error(task_id, "' TTL is too large to enforce"@).caused_by(
                    ErrorCauseView::IntegerRange,
                ),
            )
        } else if created + ttl_ms > i64::MAX {
            Err(expiry_error(task_id, "' expiry timestamp overflowed"@))
        } else {
            Ok(Some((created + ttl_ms) as i64))
        },
    }
}

/// When a task expires, if ever.
pub open spec fn task_expiry(task: TaskView) -> Result<Option<i64>, ErrorView> {
    match task.ttl_ms {
        None => Ok(None),
        Some(ttl_ms) => expiry_from_creation(
            task.task_id,
            ttl_ms,
            chrono_rfc3339_millis(task.created_at),
        ),
    }
}

/// `MCP Task '<id>'` with `rest` behind it, as a provider failure.
fn expiry_failure(task_id: &str, rest: &str) -> (error: ToolExecutionError)
    ensures
        error.deep_view() == expiry_error(task_id@, rest@),
{
    let mut text = "MCP Task '".to_owned();
    text.append(task_id);
    text.append(rest);
    ToolExecutionError::provider(text)
}

/// When a task expires that lives `ttl_ms` milliseconds from `created`, as Unix time in
/// milliseconds.
pub fn expiry_after(task_id: &str, ttl_ms: u64, created: Result<i64, String>) -> (expiry: Result<
    Option<i64>,
    ToolExecutionError,
>)
    ensures
        result_view(expiry) == expiry_from_creation(
            task_id@,
            ttl_ms,
            match created {
                Ok(value) => Ok(value),
                Err(message) => Err(message@),
            },
        ),
{
    match created {
        Err(message) => {
            let mut rest = "' has an invalid createdAt timestamp: ".to_owned();
            rest.append(message.as_str());
            Err(
                expiry_failure(task_id, rest.as_str()).with_source(ErrorCause::Timestamp(message)),
            )
        },
        Ok(created) => {
            if ttl_ms > i64::MAX as u64 {
                return Err(
                    expiry_failure(task_id, "' TTL is too large to enforce").with_source(
                        ErrorCause::IntegerRange,
                    ),
                );
            }
            match created.checked_add(ttl_ms as i64) {
                Some(expiry) => Ok(Some(expiry)),
                None => Err(expiry_failure(task_id, "' expiry timestamp overflowed")),
            }
        },
    }
}

/// When a task expires, as Unix time in milliseconds. `None` is never.
pub fn task_expiry_unix_ms(task: &Task) -> (expiry: Result<Option<i64>, ToolExecutionError>)
    ensures
        result_view(expiry) == task_expiry(task.deep_view()),
{
    match task.ttl_ms {
        None => Ok(None),
        Some(ttl_ms) => expiry_after(
            task.task_id.as_str(),
            ttl_ms,
            read_rfc3339_millis(task.created_at.as_str()),
        ),
    }
}

/// The milliseconds from `now` to `expires_at`; none are left where that has passed.
pub open spec fn millis_left(expires_at: i64, now: i64) -> nat {
    if expires_at <= now {
        0
    } else if expires_at - now > i64::MAX {
        i64::MAX as nat
    } else {
        (expires_at - now) as nat
    }
}

/// The time from `now_unix_ms` to the expiry, where there is one. It is empty once that has passed.
pub fn expiry_remaining(expires_at_unix_ms: Option<i64>, now_unix_ms: i64) -> (remaining: Option<
    Duration,
>)
    ensures
        remaining.deep_view() == match expires_at_unix_ms {
            Some(expires_at) => Some(millis_left(expires_at, now_unix_ms) * 1_000_000),
            None => None,
        },
{
    match expires_at_unix_ms {
        Some(expires_at) => {
            let left: i128 = expires_at as i128 - now_unix_ms as i128;
            if left <= 0 {
                Some(Duration::zero())
            } else if left > i64::MAX as i128 {
                Some(Duration::from_millis(i64::MAX as u64))
            } else {
                Some(Duration::from_millis(left as u64))
            }
        },
        None => None,
    }
}

/// Nothing is left of a task's life exactly when its expiry has come.
pub proof fn nothing_left_exactly_at_expiry(expires_at: i64, now: i64)
    ensures
        millis_left(expires_at, now) == 0 <==> now >= expires_at,
{
}

/// A task without a lifetime never expires. One with a lifetime expires that many milliseconds after
/// its creation, neither earlier nor later, and where this cannot be told the failure is the
/// server's, names the task and says why.
pub proof fn tasks_live_as_long_as_they_were_given(task: TaskView)
    ensures
        task.ttl_ms is None ==> task_expiry(task) == Ok::<Option<i64>, ErrorView>(None),
        task.ttl_ms matches Some(ttl_ms) ==> match chrono_rfc3339_millis(task.created_at) {
            Ok(created) => {
                &&& task_expiry(task) is Ok <==> ttl_ms <= i64::MAX && created + ttl_ms <= i64::MAX
                &&& task_expiry(task) matches Ok(expiry) ==> expiry is Some && expiry->0
                    == created + ttl_ms
                &&& task_expiry(task) matches Err(error) ==> error.kind is Provider && mentions(
                    error.message,
                    task.task_id,
                ) && (error.cause is Some <==> ttl_ms > i64::MAX)
            },
            Err(complaint) => task_expiry(task) matches Err(error) && error.kind is Provider
                && mentions(error.message, task.task_id) && mentions(error.message, complaint)
                && error.cause == Some(ErrorCauseView::Timestamp(complaint)),
        },
        task_expiry(task) matches Err(error) ==> error.code is None && error.retryable is None,
{
    let head = "MCP Task '"@;
    parts_are_mentioned(head, task.task_id, "' TTL is too large to enforce"@);
    parts_are_mentioned(head, task.task_id, "' expiry timestamp overflowed"@);
    if chrono_rfc3339_millis(task.created_at) is Err {
        let complaint = chrono_rfc3339_millis(task.created_at)->Err_0;
        let why = "' has an invalid createdAt timestamp: "@;
        parts_are_mentioned(head, task.task_id, why + complaint);
        let none = Seq::<char>::empty();
        parts_are_mentioned(head + task.task_id + why, complaint, none);
        assert(head + task.task_id + why + complaint + none =~= head + task.task_id + (why
            + complaint));
    }
}

/// The time that is left reaches exactly to the expiry, as far as it can be counted.
pub proof fn the_time_left_reaches_to_the_expiry(expires_at: i64, now: i64)
    ensures
        now <= expires_at && expires_at - now <= i64::MAX ==> now + millis_left(expires_at, now)
            == expires_at,
        expires_at - now > i64::MAX ==> millis_left(expires_at, now) == i64::MAX,
        expires_at <= now ==> millis_left(expires_at, now) == 0,
{
}

} // verus!

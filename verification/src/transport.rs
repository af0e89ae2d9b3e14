//! One request to a server, within its deadline.

use vstd::prelude::*;
use vstd::string::*;

use crate::duration::{monus, Duration};
use crate::model::{result_view, ServerReply, ServerReplyView, ServiceError, ServiceErrorView};

verus! {

/// The time limit of a request that has begun.
#[derive(Debug)]
pub struct RequestDeadline {
    /// When the request began, on the monotonic clock.
    pub started: Duration,
    /// How long it may take.
    pub timeout: Duration,
}

/// The model of a [`RequestDeadline`].
#[verifier::ext_equal]
pub struct RequestDeadlineView {
    /// When the request began, on the monotonic clock.
    pub started: nat,
    /// How long it may take.
    pub timeout: nat,
}

impl DeepView for RequestDeadline {
    type V = RequestDeadlineView;

    open spec fn deep_view(&self) -> RequestDeadlineView {
        RequestDeadlineView {
            started: self.started.deep_view(),
            timeout: self.timeout.deep_view(),
        }
    }
}

/// How a request is sent.
#[derive(Debug)]
pub enum SendStep {
    /// Without a time limit.
    Unbounded,
    /// Within this time.
    Within(Duration),
    /// Not at all.
    Fail(ServiceError),
}

/// The model of a [`SendStep`].
#[verifier::ext_equal]
pub enum SendStepView {
    /// Without a time limit.
    Unbounded,
    /// Within this time.
    Within(nat),
    /// Not at all.
    Fail(ServiceErrorView),
}

impl DeepView for SendStep {
    type V = SendStepView;

    open spec fn deep_view(&self) -> SendStepView {
        match self {
            SendStep::Unbounded => SendStepView::Unbounded,
            SendStep::Within(value) => SendStepView::Within(value.deep_view()),
            SendStep::Fail(value) => SendStepView::Fail(value.deep_view()),
        }
    }
}

/// What became of sending a request.
#[derive(Debug)]
pub enum SendOutcome {
    /// It was sent.
    Sent,
    /// It could not be sent.
    Failed(ServiceError),
    /// It was not sent in time.
    TimedOut,
}

/// The model of a [`SendOutcome`].
#[verifier::ext_equal]
pub enum SendOutcomeView {
    /// It was sent.
    Sent,
    /// It could not be sent.
    Failed(ServiceErrorView),
    /// It was not sent in time.
    TimedOut,
}

impl DeepView for SendOutcome {
    type V = SendOutcomeView;

    open spec fn deep_view(&self) -> SendOutcomeView {
        match self {
            SendOutcome::Sent => SendOutcomeView::Sent,
            SendOutcome::Failed(value) => SendOutcomeView::Failed(value.deep_view()),
            SendOutcome::TimedOut => SendOutcomeView::TimedOut,
        }
    }
}

/// How the answer is waited for.
#[derive(Debug)]
pub enum AwaitStep {
    /// Without a time limit.
    Unbounded,
    /// Within this time.
    Within(Duration),
    /// Not at all.
    Fail(ServiceError),
}

/// The model of a [`AwaitStep`].
#[verifier::ext_equal]
pub enum AwaitStepView {
    /// Without a time limit.
    Unbounded,
    /// Within this time.
    Within(nat),
    /// Not at all.
    Fail(ServiceErrorView),
}

impl DeepView for AwaitStep {
    type V = AwaitStepView;

    open spec fn deep_view(&self) -> AwaitStepView {
        match self {
            AwaitStep::Unbounded => AwaitStepView::Unbounded,
            AwaitStep::Within(value) => AwaitStepView::Within(value.deep_view()),
            AwaitStep::Fail(value) => AwaitStepView::Fail(value.deep_view()),
        }
    }
}

/// What became of waiting for the answer.
#[derive(Debug)]
pub enum AwaitOutcome {
    /// The answer.
    Reply(ServerReply),
    /// The server or the transport reported a failure.
    Failed(ServiceError),
    /// The connection went away without an answer.
    Dropped,
    /// No answer came in time.
    TimedOut,
}

/// The model of a [`AwaitOutcome`].
#[verifier::ext_equal]
pub enum AwaitOutcomeView {
    /// The answer.
    Reply(ServerReplyView),
    /// The server or the transport reported a failure.
    Failed(ServiceErrorView),
    /// The connection went away without an answer.
    Dropped,
    /// No answer came in time.
    TimedOut,
}

impl DeepView for AwaitOutcome {
    type V = AwaitOutcomeView;

    open spec fn deep_view(&self) -> AwaitOutcomeView {
        match self {
            AwaitOutcome::Reply(value) => AwaitOutcomeView::Reply(value.deep_view()),
            AwaitOutcome::Failed(value) => AwaitOutcomeView::Failed(value.deep_view()),
            AwaitOutcome::Dropped => AwaitOutcomeView::Dropped,
            AwaitOutcome::TimedOut => AwaitOutcomeView::TimedOut,
        }
    }
}

/// The time that is left of a deadline.
pub open spec fn time_left(deadline: RequestDeadlineView, now: nat) -> nat {
    monus(deadline.timeout, monus(now, deadline.started))
}

/// How a request is sent at `now`: not at all once its time is over.
pub open spec fn send_step(deadline: Option<RequestDeadlineView>, now: nat) -> SendStepView {
    match deadline {
        None => SendStepView::Unbounded,
        Some(deadline) => if time_left(deadline, now) == 0 {
            SendStepView::Fail(timed_out(deadline))
        } else {
            SendStepView::Within(time_left(deadline, now))
        },
    }
}

/// How the answer to a request is waited for.
pub open spec fn await_step(
    deadline: Option<RequestDeadlineView>,
    outcome: SendOutcomeView,
    now: nat,
) -> AwaitStepView {
    match outcome {
        SendOutcomeView::Failed(error) => AwaitStepView::Fail(error),
        SendOutcomeView::TimedOut => AwaitStepView::Fail(timed_out(deadline->0)),
        SendOutcomeView::Sent => match deadline {
            None => AwaitStepView::Unbounded,
            Some(deadline) => AwaitStepView::Within(time_left(deadline, now)),
        },
    }
}

/// The failure of a request that took too long.
pub open spec fn timed_out(deadline: RequestDeadlineView) -> ServiceErrorView {
    ServiceErrorView::Timeout { timeout: deadline.timeout }
}

/// What a request gives in the end, and whether it has to be cancelled at the server.
pub open spec fn request_result(
    deadline: Option<RequestDeadlineView>,
    outcome: AwaitOutcomeView,
) -> (Result<ServerReplyView, ServiceErrorView>, bool) {
    match outcome {
        AwaitOutcomeView::Reply(reply) => (Ok(reply), false),
        AwaitOutcomeView::Failed(error) => (Err(error), false),
        AwaitOutcomeView::Dropped => (Err(ServiceErrorView::TransportClosed), false),
        AwaitOutcomeView::TimedOut => (Err(timed_out(deadline->0)), true),
    }
}

/// The deadline of a request that begins at `now`, where it has a time limit.
pub fn request_deadline(timeout: Option<Duration>, now: Duration) -> (deadline: Option<
    RequestDeadline,
>)
    ensures
        deadline.deep_view() == match timeout.deep_view() {
            Some(timeout) => Some(RequestDeadlineView { started: now@, timeout }),
            None => None,
        },
{
    match timeout {
        Some(timeout) => Some(RequestDeadline { started: now, timeout }),
        None => None,
    }
}

impl RequestDeadline {
    /// The time that is left.
    fn left(&self, now: Duration) -> (left: Duration)
        ensures
            left@ == time_left(self.deep_view(), now@),
    {
        self.timeout.saturating_sub(now.saturating_sub(self.started))
    }

    /// The failure of a request that took too long.
    fn timed_out(&self) -> (error: ServiceError)
        ensures
            error.deep_view() == timed_out(self.deep_view()),
    {
        ServiceError::Timeout { timeout: self.timeout }
    }
}

/// How a request is sent at `now`.
pub fn send_mcp_request(deadline: &Option<RequestDeadline>, now: Duration) -> (step: SendStep)
    ensures
        step.deep_view() == send_step(deadline.deep_view(), now@),
{
    match deadline {
        None => SendStep::Unbounded,
        Some(limit) => {
            let left = limit.left(now);
            if left.is_zero() {
                SendStep::Fail(limit.timed_out())
            } else {
                SendStep::Within(left)
            }
        },
    }
}

/// How the answer is waited for, from `now` on. Only a request with a deadline can time out.
pub fn await_mcp_response(
    deadline: &Option<RequestDeadline>,
    outcome: SendOutcome,
    now: Duration,
) -> (step: AwaitStep)
    requires
        outcome is TimedOut ==> deadline is Some,
    ensures
        step.deep_view() == await_step(deadline.deep_view(), outcome.deep_view(), now@),
{
    match (outcome, deadline) {
        (SendOutcome::Failed(error), _) => AwaitStep::Fail(error),
        (SendOutcome::TimedOut, Some(limit)) => AwaitStep::Fail(limit.timed_out()),
        (SendOutcome::Sent, Some(limit)) => AwaitStep::Within(limit.left(now)),
        (_, None) => AwaitStep::Unbounded,
    }
}

/// What a request gives in the end, and whether it has to be cancelled at the server. A timed-out
/// request has to; that is delivered apart, so as not to exceed the deadline. Only a request with
/// a deadline can time out.
pub fn finish_mcp_request(deadline: &Option<RequestDeadline>, outcome: AwaitOutcome) -> (result: (
    Result<ServerReply, ServiceError>,
    bool,
))
    requires
        outcome is TimedOut ==> deadline is Some,
    ensures
        (result_view(result.0), result.1) == request_result(
            deadline.deep_view(),
            outcome.deep_view(),
        ),
{
    match (outcome, deadline) {
        (AwaitOutcome::Reply(reply), _) => (Ok(reply), false),
        (AwaitOutcome::Failed(error), _) => (Err(error), false),
        (AwaitOutcome::TimedOut, Some(limit)) => (Err(limit.timed_out()), true),
        (_, _) => (Err(ServiceError::TransportClosed), false),
    }
}

/// Sending and waiting together never exceed the deadline: each part gets at most what is left of
/// the whole, and what is left only shrinks.
pub proof fn requests_keep_their_deadline(
    deadline: RequestDeadlineView,
    sent_at: nat,
    answered_at: nat,
)
    requires
        deadline.started <= sent_at,
        sent_at <= answered_at,
    ensures
        time_left(deadline, deadline.started) == deadline.timeout,
        time_left(deadline, answered_at) <= time_left(deadline, sent_at),
        send_step(Some(deadline), sent_at) matches SendStepView::Within(span) ==> span > 0
            && sent_at + span == deadline.started + deadline.timeout,
        await_step(Some(deadline), SendOutcomeView::Sent, answered_at) matches AwaitStepView::Within(
            span,
        ) ==> span == 0 || answered_at + span == deadline.started + deadline.timeout,
{
}

/// A request without a time limit never fails for lack of time of its own.
pub proof fn unbounded_requests_wait(now: nat)
    ensures
        send_step(None, now) is Unbounded,
        await_step(None, SendOutcomeView::Sent, now) is Unbounded,
{
}

/// A request fails by its own time limit where that runs out, and else by what failed; its reply is
/// handed on unchanged. Only a request that was sent and not answered in time is cancelled.
pub proof fn replies_and_failures_are_handed_on(
    deadline: Option<RequestDeadlineView>,
    reply: ServerReplyView,
    error: ServiceErrorView,
    now: nat,
)
    ensures
        request_result(deadline, AwaitOutcomeView::Reply(reply)) == (
            Ok::<ServerReplyView, ServiceErrorView>(reply),
            false,
        ),
        request_result(deadline, AwaitOutcomeView::Failed(error)) == (
            Err::<ServerReplyView, ServiceErrorView>(error),
            false,
        ),
        request_result(deadline, AwaitOutcomeView::Dropped) == (
            Err::<ServerReplyView, ServiceErrorView>(ServiceErrorView::TransportClosed),
            false,
        ),
        await_step(deadline, SendOutcomeView::Failed(error), now) == AwaitStepView::Fail(error),
        deadline matches Some(limit) ==> {
            let late = ServiceErrorView::Timeout { timeout: limit.timeout };
            &&& request_result(deadline, AwaitOutcomeView::TimedOut) == (
                Err::<ServerReplyView, ServiceErrorView>(late),
                true,
            )
            &&& await_step(deadline, SendOutcomeView::TimedOut, now) == AwaitStepView::Fail(late)
            &&& now >= limit.started + limit.timeout ==> send_step(deadline, now)
                == SendStepView::Fail(late)
            &&& now < limit.started + limit.timeout && now >= limit.started ==> send_step(
                deadline,
                now,
            ) == SendStepView::Within((limit.started + limit.timeout - now) as nat)
            &&& now <= limit.started + limit.timeout && now >= limit.started ==> await_step(
                deadline,
                SendOutcomeView::Sent,
                now,
            ) == AwaitStepView::Within((limit.started + limit.timeout - now) as nat)
            &&& now >= limit.started + limit.timeout ==> await_step(
                deadline,
                SendOutcomeView::Sent,
                now,
            ) == AwaitStepView::Within(0)
        },
{
}

} // verus!

//! State of a live MCP client: whether it takes requests, and which tasks it watches.

use vstd::prelude::*;
use vstd::string::*;

use crate::duplicate::Duplicate;
use crate::duration::{duration_text, Duration};
use crate::model::{ServiceError, ServiceErrorView};
use crate::service_error::service_error_text;
use crate::string_map::{sorted_keys, StringMap};

verus! {

/// Failure of an MCP client operation.
#[derive(Debug)]
pub enum McpClientError {
    /// Failed to establish the MCP connection or complete the handshake.
    ConnectionError(String),
    /// Failed to fetch the tool list from the MCP server.
    ToolFetchError(ServiceError),
    /// A post-connect Discover request failed.
    DiscoveryError(String),
    /// The server did not finish returning its tool list before the deadline.
    ToolFetchTimeout(Duration),
    /// A tool-list page omitted its mandatory cache hints.
    MissingToolListCacheHints,
    /// A tool-list page did not identify itself as complete.
    InvalidToolListResultType,
    /// The server did not negotiate the required protocol version.
    UnsupportedProtocolVersion,
    /// Discover did not advertise the tools capability.
    ToolsNotSupported,
    /// The guard that owned this request handle has closed or been dropped.
    Unavailable,
    /// Graceful shutdown failed.
    Shutdown(String),
}

/// The model of a [`McpClientError`].
#[verifier::ext_equal]
pub enum McpClientErrorView {
    /// Failed to establish the MCP connection or complete the handshake.
    ConnectionError(Seq<char>),
    /// Failed to fetch the tool list from the MCP server.
    ToolFetchError(ServiceErrorView),
    /// A post-connect Discover request failed.
    DiscoveryError(Seq<char>),
    /// The server did not finish returning its tool list before the deadline.
    ToolFetchTimeout(nat),
    /// A tool-list page omitted its mandatory cache hints.
    MissingToolListCacheHints,
    /// A tool-list page did not identify itself as complete.
    InvalidToolListResultType,
    /// The server did not negotiate the required protocol version.
    UnsupportedProtocolVersion,
    /// Discover did not advertise the tools capability.
    ToolsNotSupported,
    /// The guard that owned this request handle has closed or been dropped.
    Unavailable,
    /// Graceful shutdown failed.
    Shutdown(Seq<char>),
}

impl DeepView for McpClientError {
    type V = McpClientErrorView;

    open spec fn deep_view(&self) -> McpClientErrorView {
        match self {
            McpClientError::ConnectionError(value) => McpClientErrorView::ConnectionError(value.deep_view()),
            McpClientError::ToolFetchError(value) => McpClientErrorView::ToolFetchError(value.deep_view()),
            McpClientError::DiscoveryError(value) => McpClientErrorView::DiscoveryError(value.deep_view()),
            McpClientError::ToolFetchTimeout(value) => McpClientErrorView::ToolFetchTimeout(value.deep_view()),
            McpClientError::MissingToolListCacheHints => McpClientErrorView::MissingToolListCacheHints,
            McpClientError::InvalidToolListResultType => McpClientErrorView::InvalidToolListResultType,
            McpClientError::UnsupportedProtocolVersion => McpClientErrorView::UnsupportedProtocolVersion,
            McpClientError::ToolsNotSupported => McpClientErrorView::ToolsNotSupported,
            McpClientError::Unavailable => McpClientErrorView::Unavailable,
            McpClientError::Shutdown(value) => McpClientErrorView::Shutdown(value.deep_view()),
        }
    }
}

impl Duplicate for McpClientError {
    fn duplicate(&self) -> (copy: Self) {
        match self {
            McpClientError::ConnectionError(cause) => McpClientError::ConnectionError(cause.clone()),
            McpClientError::ToolFetchError(cause) => {
                McpClientError::ToolFetchError(cause.duplicate())
            },
            McpClientError::DiscoveryError(cause) => McpClientError::DiscoveryError(cause.clone()),
            McpClientError::ToolFetchTimeout(timeout) => McpClientError::ToolFetchTimeout(*timeout),
            McpClientError::MissingToolListCacheHints => McpClientError::MissingToolListCacheHints,
            McpClientError::InvalidToolListResultType => McpClientError::InvalidToolListResultType,
            McpClientError::UnsupportedProtocolVersion => {
                McpClientError::UnsupportedProtocolVersion
            },
            McpClientError::ToolsNotSupported => McpClientError::ToolsNotSupported,
            McpClientError::Unavailable => McpClientError::Unavailable,
            McpClientError::Shutdown(cause) => McpClientError::Shutdown(cause.clone()),
        }
    }
}

impl Clone for McpClientError {
    fn clone(&self) -> (copy: Self)
        ensures
            copy.deep_view() == self.deep_view(),
    {
        self.duplicate()
    }
}

/// The rendering of a client error.
pub open spec fn client_error_text(error: McpClientErrorView) -> Seq<char> {
    match error {
        McpClientErrorView::ConnectionError(cause) => "MCP connection error: "@ + cause,
        McpClientErrorView::ToolFetchError(cause) => "Failed to fetch MCP tool list: "@
            + service_error_text(cause),
        McpClientErrorView::DiscoveryError(cause) => "MCP server discovery failed: "@ + cause,
        McpClientErrorView::ToolFetchTimeout(timeout) =>
            "Timed out fetching MCP tool list after "@ + duration_text(timeout),
        McpClientErrorView::MissingToolListCacheHints =>
            "MCP 2026-07-28 tools/list result omitted required ttlMs or cacheScope"@,
        McpClientErrorView::InvalidToolListResultType =>
            "MCP 2026-07-28 tools/list result did not use resultType 'complete'"@,
        McpClientErrorView::UnsupportedProtocolVersion =>
            "MCP server does not support protocol version 2026-07-28"@,
        McpClientErrorView::ToolsNotSupported =>
            "MCP server Discover response does not advertise tool support"@,
        McpClientErrorView::Unavailable => "MCP client is unavailable"@,
        McpClientErrorView::Shutdown(cause) => "MCP client shutdown failed: "@ + cause,
    }
}

impl McpClientError {
    /// The rendering of the error.
    pub fn to_string(&self) -> (text: String)
        ensures
            text@ == client_error_text(self.deep_view()),
    {
        match self {
            McpClientError::ConnectionError(cause) => {
                let mut text = "MCP connection error: ".to_owned();
                text.append(cause.as_str());
                text
            },
            McpClientError::ToolFetchError(cause) => {
                let mut text = "Failed to fetch MCP tool list: ".to_owned();
                text.append(cause.display().as_str());
                text
            },
            McpClientError::DiscoveryError(cause) => {
                let mut text = "MCP server discovery failed: ".to_owned();
                text.append(cause.as_str());
                text
            },
            McpClientError::ToolFetchTimeout(timeout) => {
                let mut text = "Timed out fetching MCP tool list after ".to_owned();
                text.append(timeout.debug_text().as_str());
                text
            },
            McpClientError::MissingToolListCacheHints => {
                "MCP 2026-07-28 tools/list result omitted required ttlMs or cacheScope".to_owned()
            },
            McpClientError::InvalidToolListResultType => {
                "MCP 2026-07-28 tools/list result did not use resultType 'complete'".to_owned()
            },
            McpClientError::UnsupportedProtocolVersion => {
                "MCP server does not support protocol version 2026-07-28".to_owned()
            },
            McpClientError::ToolsNotSupported => {
                "MCP server Discover response does not advertise tool support".to_owned()
            },
            McpClientError::Unavailable => "MCP client is unavailable".to_owned(),
            McpClientError::Shutdown(cause) => {
                let mut text = "MCP client shutdown failed: ".to_owned();
                text.append(cause.as_str());
                text
            },
        }
    }
}

/// Which tasks are watched by live executions, and who waits for news of them.
#[derive(Debug)]
pub struct TaskNotificationState {
    task_counts: StringMap<usize>,
    waiters: StringMap<bool>,
    revision: u64,
}

/// The model of [`TaskNotificationState`].
#[verifier::ext_equal]
pub struct TaskNotificationStateView {
    /// How many live executions watch each task.
    pub task_counts: Map<Seq<char>, usize>,
    /// For each task that was ever waited for, whether a wake-up is pending.
    pub waiters: Map<Seq<char>, bool>,
    /// Changes whenever an execution comes or goes.
    pub revision: u64,
}

impl DeepView for TaskNotificationState {
    type V = TaskNotificationStateView;

    closed spec fn deep_view(&self) -> TaskNotificationStateView {
        TaskNotificationStateView {
            task_counts: self.task_counts.deep_view(),
            waiters: self.waiters.deep_view(),
            revision: self.revision,
        }
    }
}

/// The state in which no task is watched.
pub open spec fn unwatched() -> TaskNotificationStateView {
    TaskNotificationStateView { task_counts: Map::empty(), waiters: Map::empty(), revision: 0 }
}

/// How many live executions watch a task.
pub open spec fn watchers(state: TaskNotificationStateView, task_id: Seq<char>) -> usize {
    if state.task_counts.contains_key(task_id) {
        state.task_counts[task_id]
    } else {
        0
    }
}

/// The state after an execution of `task_id` came.
pub open spec fn registered(state: TaskNotificationStateView, task_id: Seq<char>) ->
    TaskNotificationStateView {
    TaskNotificationStateView {
        task_counts: state.task_counts.insert(task_id, (watchers(state, task_id) + 1) as usize),
        revision: (state.revision + 1) as u64,
        ..state
    }
}

/// The state after an execution of `task_id` went.
pub open spec fn unregistered(state: TaskNotificationStateView, task_id: Seq<char>) ->
    TaskNotificationStateView {
    TaskNotificationStateView {
        task_counts: if watchers(state, task_id) > 1 {
            state.task_counts.insert(task_id, (watchers(state, task_id) - 1) as usize)
        } else {
            state.task_counts.remove(task_id)
        },
        revision: (state.revision + 1) as u64,
        ..state
    }
}

/// The state after somebody waited for `task_id`.
pub open spec fn waited_for(state: TaskNotificationStateView, task_id: Seq<char>) ->
    TaskNotificationStateView {
    TaskNotificationStateView {
        waiters: if state.waiters.contains_key(task_id) {
            state.waiters
        } else {
            state.waiters.insert(task_id, false)
        },
        ..state
    }
}

impl TaskNotificationState {
    /// A state in which no task is watched.
    pub fn new() -> (state: TaskNotificationState)
        ensures
            state.deep_view() == unwatched(),
    {
        let state = TaskNotificationState {
            task_counts: StringMap::new(),
            waiters: StringMap::new(),
            revision: 0,
        };
        assert(state.task_counts.deep_view() =~= Map::<Seq<char>, usize>::empty());
        assert(state.waiters.deep_view() =~= Map::<Seq<char>, bool>::empty());
        state
    }

    /// Notes that one more live execution watches `task_id`.
    pub fn register(&mut self, task_id: &str)
        requires
            watchers(old(self).deep_view(), task_id@) < usize::MAX,
            old(self).deep_view().revision < u64::MAX,
        ensures
            final(self).deep_view() == registered(old(self).deep_view(), task_id@),
    {
        let count: usize = self.watching(task_id);
        self.task_counts.put(task_id.to_owned(), count + 1);
        self.revision = self.revision + 1;
    }

    /// Notes that one live execution of `task_id` is gone.
    pub fn unregister(&mut self, task_id: &str)
        requires
            old(self).deep_view().revision < u64::MAX,
        ensures
            final(self).deep_view() == unregistered(old(self).deep_view(), task_id@),
    {
        let count: usize = self.watching(task_id);
        if count > 1 {
            self.task_counts.put(task_id.to_owned(), count - 1);
        } else {
            let _ = self.task_counts.take(task_id);
        }
        self.revision = self.revision + 1;
    }

    /// How many live executions watch `task_id`.
    pub fn watching(&self, task_id: &str) -> (count: usize)
        ensures
            count == watchers(self.deep_view(), task_id@),
    {
        match self.task_counts.lookup(task_id) {
            Some(count) => *count,
            None => 0,
        }
    }

    /// The watched tasks, in ascending order.
    pub fn task_ids(&self) -> (ids: Vec<String>)
        ensures
            ids.deep_view() == sorted_keys(self.deep_view().task_counts.dom()),
    {
        assert(self.deep_view().task_counts.dom() =~= self.task_counts@.dom());
        self.task_counts.key_list()
    }

    /// Makes sure that news of `task_id` can be waited for.
    pub fn waiter(&mut self, task_id: &str)
        ensures
            final(self).deep_view() == waited_for(old(self).deep_view(), task_id@),
    {
        if !self.waiters.contains_key(task_id) {
            self.waiters.put(task_id.to_owned(), false);
        }
    }

    /// Wakes whoever waits for `task_id`, now or next; `false` where nobody ever waited for it.
    pub fn wake(&mut self, task_id: &str) -> (known: bool)
        ensures
            known == old(self).deep_view().waiters.contains_key(task_id@),
            final(self).deep_view() == woken(old(self).deep_view(), task_id@),
    {
        let known = self.waiters.contains_key(task_id);
        if known {
            self.waiters.put(task_id.to_owned(), true);
        }
        known
    }

    /// Takes a pending wake-up for `task_id`, if there is one.
    pub fn take_wakeup(&mut self, task_id: &str) -> (pending: bool)
        ensures
            pending == wakeup_pending(old(self).deep_view(), task_id@),
            final(self).deep_view() == wakeup_taken(old(self).deep_view(), task_id@),
    {
        let pending: bool = match self.waiters.lookup(task_id) {
            Some(pending) => *pending,
            None => false,
        };
        if pending {
            self.waiters.put(task_id.to_owned(), false);
        }
        pending
    }

    /// Changes whenever an execution comes or goes.
    pub fn revision(&self) -> (revision: u64)
        ensures
            revision == self.deep_view().revision,
    {
        self.revision
    }
}

/// Whether a wake-up for a task is pending.
pub open spec fn wakeup_pending(state: TaskNotificationStateView, task_id: Seq<char>) -> bool {
    state.waiters.contains_key(task_id) && state.waiters[task_id]
}

/// The state after whoever waits for a task was woken; nothing where nobody ever waited for it.
pub open spec fn woken(state: TaskNotificationStateView, task_id: Seq<char>) ->
    TaskNotificationStateView {
    TaskNotificationStateView {
        waiters: if state.waiters.contains_key(task_id) {
            state.waiters.insert(task_id, true)
        } else {
            state.waiters
        },
        ..state
    }
}

/// The state after a pending wake-up was taken.
pub open spec fn wakeup_taken(state: TaskNotificationStateView, task_id: Seq<char>) ->
    TaskNotificationStateView {
    TaskNotificationStateView {
        waiters: if wakeup_pending(state, task_id) {
            state.waiters.insert(task_id, false)
        } else {
            state.waiters
        },
        ..state
    }
}

/// Whether every watched task has a live execution.
pub open spec fn counts_positive(state: TaskNotificationStateView) -> bool {
    forall|id: Seq<char>| #[trigger]
        state.task_counts.contains_key(id) ==> state.task_counts[id] > 0
}

/// Only tasks with a live execution are watched, at all times.
pub proof fn counts_stay_positive(state: TaskNotificationStateView, task_id: Seq<char>)
    requires
        counts_positive(state),
        watchers(state, task_id) < usize::MAX,
        state.revision < u64::MAX,
    ensures
        counts_positive(registered(state, task_id)),
        counts_positive(unregistered(state, task_id)),
{
}

/// An execution that comes and goes leaves the watched tasks as they were, and its task is watched
/// in between.
pub proof fn register_then_unregister(state: TaskNotificationStateView, task_id: Seq<char>)
    requires
        counts_positive(state),
        watchers(state, task_id) < usize::MAX,
        state.revision < u64::MAX - 1,
    ensures
        registered(state, task_id).task_counts.contains_key(task_id),
        unregistered(registered(state, task_id), task_id).task_counts == state.task_counts,
        unregistered(registered(state, task_id), task_id).revision != state.revision,
{
    assert(unregistered(registered(state, task_id), task_id).task_counts =~= state.task_counts);
}

/// A task is watched as long as one of its executions lives, however many others go.
pub proof fn watched_while_one_lives(state: TaskNotificationStateView, task_id: Seq<char>)
    requires
        watchers(state, task_id) > 1,
        state.revision < u64::MAX,
    ensures
        unregistered(state, task_id).task_counts.contains_key(task_id),
        watchers(unregistered(state, task_id), task_id) == watchers(state, task_id) - 1,
{
}

/// A wake-up is not lost: it stays pending until it is taken, whoever comes or goes meanwhile.
pub proof fn wakeups_stay_pending(
    state: TaskNotificationStateView,
    task_id: Seq<char>,
    other: Seq<char>,
)
    requires
        state.waiters.contains_key(task_id),
        state.waiters[task_id],
    ensures
        registered(state, other).waiters[task_id],
        unregistered(state, other).waiters[task_id],
        waited_for(state, other).waiters[task_id],
{
}

/// One MCP client, as far as its requests depend on it.
#[derive(Debug)]
pub struct McpClientState {
    /// Whether the owning guard still takes requests. A closed or dropped guard does not.
    pub available: bool,
    /// Whether the transport is closed.
    pub transport_closed: bool,
    /// Resolver key in durable descriptors.
    pub deferred_backend_id: String,
    /// Limit of the input rounds of one tool call.
    pub mrtr_max_rounds: usize,
    /// The watched tasks.
    pub task_notifications: TaskNotificationState,
}

/// Whether a client can still take requests.
pub open spec fn takes_requests(state: &McpClientState) -> bool {
    state.available && !state.transport_closed
}

impl McpClientState {
    /// A client that takes requests.
    pub fn new(deferred_backend_id: String, mrtr_max_rounds: usize) -> (state: McpClientState)
        ensures
            takes_requests(&state),
            state.deferred_backend_id@ == deferred_backend_id@,
            state.mrtr_max_rounds == mrtr_max_rounds,
            state.task_notifications.deep_view() == unwatched(),
    {
        McpClientState {
            available: true,
            transport_closed: false,
            deferred_backend_id,
            mrtr_max_rounds,
            task_notifications: TaskNotificationState::new(),
        }
    }

    /// Whether the owning guard and transport can still accept requests.
    pub fn is_available(&self) -> (available: bool)
        ensures
            available == takes_requests(self),
    {
        self.available && !self.transport_closed
    }

    /// Whether requests can be made, and if not, why.
    pub fn live(&self) -> (live: Result<(), McpClientError>)
        ensures
            takes_requests(self) ==> live is Ok,
            !takes_requests(self) ==> live == Err::<(), McpClientError>(
                McpClientError::Unavailable,
            ),
    {
        if self.is_available() {
            Ok(())
        } else {
            Err(McpClientError::Unavailable)
        }
    }

    /// Resolver key in durable descriptors, while requests can be made.
    pub fn deferred_backend_id(&self) -> (id: Result<String, McpClientError>)
        ensures
            takes_requests(self) ==> (id matches Ok(text) && text@ == self.deferred_backend_id@),
            !takes_requests(self) ==> id == Err::<String, McpClientError>(
                McpClientError::Unavailable,
            ),
    {
        match self.live() {
            Ok(()) => Ok(self.deferred_backend_id.clone()),
            Err(error) => Err(error),
        }
    }
}

/// An execution that comes is one watcher more of its own task, and one that goes is one less; the
/// last one takes the task away. No other task is touched, and whoever listens is told of it.
pub proof fn watchers_come_and_go_one_by_one(
    state: TaskNotificationStateView,
    task_id: Seq<char>,
    other: Seq<char>,
)
    requires
        watchers(state, task_id) < usize::MAX,
        state.revision < u64::MAX,
        other != task_id,
    ensures
        watchers(state, task_id) == if state.task_counts.contains_key(task_id) {
            state.task_counts[task_id]
        } else {
            0
        },
        watchers(registered(state, task_id), task_id) == watchers(state, task_id) + 1,
        watchers(state, task_id) > 0 ==> watchers(unregistered(state, task_id), task_id) == watchers(
            state,
            task_id,
        ) - 1,
        watchers(state, task_id) <= 1 ==> !unregistered(state, task_id).task_counts.contains_key(
            task_id,
        ),
        registered(state, task_id).task_counts.contains_key(other)
            == state.task_counts.contains_key(other),
        unregistered(state, task_id).task_counts.contains_key(other)
            == state.task_counts.contains_key(other),
        watchers(registered(state, task_id), other) == watchers(state, other),
        watchers(unregistered(state, task_id), other) == watchers(state, other),
        registered(state, task_id).revision == state.revision + 1,
        unregistered(state, task_id).revision == state.revision + 1,
        registered(state, task_id).waiters == state.waiters,
        unregistered(state, task_id).waiters == state.waiters,
{
}

/// Whoever waits for a task for the first time finds no wake-up, and finds the pending one
/// otherwise; nothing else changes.
pub proof fn waiting_starts_without_a_wakeup(
    state: TaskNotificationStateView,
    task_id: Seq<char>,
    other: Seq<char>,
)
    ensures
        ({
            let after = waited_for(state, task_id);
            &&& after.waiters.contains_key(task_id)
            &&& !state.waiters.contains_key(task_id) ==> !after.waiters[task_id]
            &&& state.waiters.contains_key(task_id) ==> after.waiters[task_id]
                == state.waiters[task_id]
            &&& other != task_id ==> after.waiters.contains_key(other)
                == state.waiters.contains_key(other)
            &&& after.task_counts == state.task_counts && after.revision == state.revision
        }),
        !unwatched().task_counts.contains_key(other) && !unwatched().waiters.contains_key(other),
        unwatched().revision == 0,
{
}

/// A client takes requests exactly while its guard does and its transport is open.
pub proof fn requests_need_guard_and_transport(state: &McpClientState)
    ensures
        takes_requests(state) <==> state.available && !state.transport_closed,
{
}

/// A wake-up is found by the next that waits for its task, once, however often it was sent; nobody
/// else finds it, and a task that nobody ever waited for has none.
pub proof fn wakeups_are_found_once(
    state: TaskNotificationStateView,
    task_id: Seq<char>,
    other: Seq<char>,
)
    ensures
        state.waiters.contains_key(task_id) ==> {
            let sent = woken(state, task_id);
            &&& sent.waiters.contains_key(task_id) && sent.waiters[task_id]
            &&& wakeup_pending(sent, task_id)
            &&& woken(sent, task_id) == sent
            &&& !wakeup_pending(wakeup_taken(sent, task_id), task_id)
            &&& wakeup_taken(sent, task_id).waiters.contains_key(task_id)
        },
        !state.waiters.contains_key(task_id) ==> woken(state, task_id) == state && !wakeup_pending(
            state,
            task_id,
        ),
        !wakeup_pending(state, task_id) ==> wakeup_taken(state, task_id) == state,
        other != task_id ==> wakeup_pending(woken(state, task_id), other) == wakeup_pending(
            state,
            other,
        ) && wakeup_pending(wakeup_taken(state, task_id), other) == wakeup_pending(state, other),
        woken(state, task_id).task_counts == state.task_counts,
        woken(state, task_id).revision == state.revision,
        wakeup_taken(state, task_id).task_counts == state.task_counts,
        wakeup_taken(state, task_id).revision == state.revision,
{
    assert(woken(woken(state, task_id), task_id).waiters =~= woken(state, task_id).waiters);
}

/// What a client failed at is told, with its cause or its limit.
pub proof fn client_errors_tell_their_cause(
    cause: Seq<char>,
    error: ServiceErrorView,
    timeout: nat,
)
    ensures
        client_error_text(McpClientErrorView::ConnectionError(cause)) == "MCP connection error: "@
            + cause,
        client_error_text(McpClientErrorView::DiscoveryError(cause))
            == "MCP server discovery failed: "@ + cause,
        client_error_text(McpClientErrorView::Shutdown(cause)) == "MCP client shutdown failed: "@
            + cause,
        client_error_text(McpClientErrorView::ToolFetchError(error))
            == "Failed to fetch MCP tool list: "@ + service_error_text(error),
        client_error_text(McpClientErrorView::ToolFetchTimeout(timeout))
            == "Timed out fetching MCP tool list after "@ + duration_text(timeout),
        client_error_text(McpClientErrorView::Unavailable) == "MCP client is unavailable"@,
{
}

} // verus!

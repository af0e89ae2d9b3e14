//! Listening for the notifications of a server.

use vstd::prelude::*;
use vstd::string::*;

use crate::config::{McpSubscriptionPolicy, McpSubscriptionPolicyView};
use crate::duration::Duration;
use crate::handler::{Discovery, DiscoveryView};

verus! {

/// Which notifications a client asks for.
#[derive(Debug)]
pub struct SubscriptionFilter {
    /// Changes of the tools.
    pub tools_list_changed: bool,
    /// Changes of these tasks.
    pub task_ids: Option<Vec<String>>,
}

/// The model of a [`SubscriptionFilter`].
#[verifier::ext_equal]
pub struct SubscriptionFilterView {
    /// Changes of the tools.
    pub tools_list_changed: bool,
    /// Changes of these tasks.
    pub task_ids: Option<Seq<Seq<char>>>,
}

impl DeepView for SubscriptionFilter {
    type V = SubscriptionFilterView;

    open spec fn deep_view(&self) -> SubscriptionFilterView {
        SubscriptionFilterView {
            tools_list_changed: self.tools_list_changed,
            task_ids: self.task_ids.deep_view(),
        }
    }
}

/// How a subscription came to its end.
#[derive(Debug, Clone, Copy, PartialEq, Eq, Structural)]
pub enum SubscriptionEnd {
    /// The server ended it.
    Graceful,
    /// The client ended it.
    Cancelled,
    /// It broke.
    Abrupt,
    /// The client did not keep up.
    Lagged,
    /// Nothing is known of its end.
    Unreported,
    /// It ended in a way that this version of the protocol does not name.
    Unknown,
}

impl DeepView for SubscriptionEnd {
    type V = SubscriptionEnd;

    open spec fn deep_view(&self) -> SubscriptionEnd {
        *self
    }
}

/// What happened to a listener.
#[derive(Debug)]
pub enum ListenEvent {
    /// A round begins.
    Round {
        /// Whether the client can still take requests.
        available: bool,
        /// The watched tasks.
        task_ids: Vec<String>,
    },
    /// While no request was open, the watched tasks changed, or can never change again.
    IdleInterest {
        /// Whether they changed.
        changed: bool,
    },
    /// A listen request was accepted.
    Opened {
        /// What the server said to changes of the tools.
        tools_accepted: Option<bool>,
        /// Whether the server said anything to changes of tasks.
        tasks_accepted: bool,
    },
    /// A listen request failed.
    OpenFailed {
        /// Whether the transport is closed.
        transport_closed: bool,
    },
    /// While a request was open, the watched tasks changed, or can never change again.
    Interest {
        /// Whether they changed.
        still_open: bool,
    },
    /// The server announced a change of its tools.
    ToolsChanged,
    /// The server announced a change of a task.
    TaskChanged(String),
    /// The server announced something else.
    OtherNotification,
    /// The announcements ended, with or without a failure.
    StreamEnded,
    /// The end of the subscription was looked at.
    Closed {
        /// How it ended.
        end: SubscriptionEnd,
        /// Whether the transport is closed.
        connection_lost: bool,
    },
}

/// The model of a [`ListenEvent`].
#[verifier::ext_equal]
pub enum ListenEventView {
    /// A round begins.
    Round {
        /// Whether the client can still take requests.
        available: bool,
        /// The watched tasks.
        task_ids: Seq<Seq<char>>,
    },
    /// While no request was open, the watched tasks changed, or can never change again.
    IdleInterest {
        /// Whether they changed.
        changed: bool,
    },
    /// A listen request was accepted.
    Opened {
        /// What the server said to changes of the tools.
        tools_accepted: Option<bool>,
        /// Whether the server said anything to changes of tasks.
        tasks_accepted: bool,
    },
    /// A listen request failed.
    OpenFailed {
        /// Whether the transport is closed.
        transport_closed: bool,
    },
    /// While a request was open, the watched tasks changed, or can never change again.
    Interest {
        /// Whether they changed.
        still_open: bool,
    },
    /// The server announced a change of its tools.
    ToolsChanged,
    /// The server announced a change of a task.
    TaskChanged(Seq<char>),
    /// The server announced something else.
    OtherNotification,
    /// The announcements ended, with or without a failure.
    StreamEnded,
    /// The end of the subscription was looked at.
    Closed {
        /// How it ended.
        end: SubscriptionEnd,
        /// Whether the transport is closed.
        connection_lost: bool,
    },
}

impl DeepView for ListenEvent {
    type V = ListenEventView;

    open spec fn deep_view(&self) -> ListenEventView {
        match self {
            ListenEvent::Round { available, task_ids } => ListenEventView::Round {
                available: *available,
                task_ids: task_ids.deep_view(),
            },
            ListenEvent::IdleInterest { changed } => ListenEventView::IdleInterest {
                changed: *changed,
            },
            ListenEvent::Opened { tools_accepted, tasks_accepted } => ListenEventView::Opened {
                tools_accepted: tools_accepted.deep_view(),
                tasks_accepted: *tasks_accepted,
            },
            ListenEvent::OpenFailed { transport_closed } => ListenEventView::OpenFailed {
                transport_closed: *transport_closed,
            },
            ListenEvent::Interest { still_open } => ListenEventView::Interest {
                still_open: *still_open,
            },
            ListenEvent::ToolsChanged => ListenEventView::ToolsChanged,
            ListenEvent::TaskChanged(value) => ListenEventView::TaskChanged(value.deep_view()),
            ListenEvent::OtherNotification => ListenEventView::OtherNotification,
            ListenEvent::StreamEnded => ListenEventView::StreamEnded,
            ListenEvent::Closed { end, connection_lost } => ListenEventView::Closed {
                end: *end,
                connection_lost: *connection_lost,
            },
        }
    }
}

/// What a listener does next.
#[derive(Debug)]
pub enum ListenAction {
    /// Nothing more.
    Stop,
    /// Wait until the watched tasks change.
    AwaitInterest,
    /// Open a listen request.
    Listen(SubscriptionFilter),
    /// Wait for the next announcement, or for a change of the watched tasks.
    AwaitNext,
    /// Drop all cached answers, start a refresh, and wait for the next announcement.
    RefreshTools,
    /// Wake whoever waits for the named task, and wait for the next announcement.
    WakeTask(String),
    /// Cancel the request because the filter changed, and begin the next round.
    CancelAndRestart,
    /// Look at the end of the subscription.
    ReadEnd,
    /// Wait for this time, and begin the next round.
    SleepThenRound(Duration),
    /// Begin the next round.
    NextRound,
}

/// The model of a [`ListenAction`].
#[verifier::ext_equal]
pub enum ListenActionView {
    /// Nothing more.
    Stop,
    /// Wait until the watched tasks change.
    AwaitInterest,
    /// Open a listen request.
    Listen(SubscriptionFilterView),
    /// Wait for the next announcement, or for a change of the watched tasks.
    AwaitNext,
    /// Drop all cached answers, start a refresh, and wait for the next announcement.
    RefreshTools,
    /// Wake whoever waits for the named task, and wait for the next announcement.
    WakeTask(Seq<char>),
    /// Cancel the request because the filter changed, and begin the next round.
    CancelAndRestart,
    /// Look at the end of the subscription.
    ReadEnd,
    /// Wait for this time, and begin the next round.
    SleepThenRound(nat),
    /// Begin the next round.
    NextRound,
}

impl DeepView for ListenAction {
    type V = ListenActionView;

    open spec fn deep_view(&self) -> ListenActionView {
        match self {
            ListenAction::Stop => ListenActionView::Stop,
            ListenAction::AwaitInterest => ListenActionView::AwaitInterest,
            ListenAction::Listen(value) => ListenActionView::Listen(value.deep_view()),
            ListenAction::AwaitNext => ListenActionView::AwaitNext,
            ListenAction::RefreshTools => ListenActionView::RefreshTools,
            ListenAction::WakeTask(value) => ListenActionView::WakeTask(value.deep_view()),
            ListenAction::CancelAndRestart => ListenActionView::CancelAndRestart,
            ListenAction::ReadEnd => ListenActionView::ReadEnd,
            ListenAction::SleepThenRound(value) => ListenActionView::SleepThenRound(value.deep_view()),
            ListenAction::NextRound => ListenActionView::NextRound,
        }
    }
}

/// A listener for the notifications of a server.
#[derive(Debug)]
pub struct SubscriptionListener {
    /// Whether the server announces changes of its tools.
    pub supports_tool_changes: bool,
    /// Whether the server offers tasks.
    pub supports_tasks: bool,
    /// Delay before opening a replacement listen request after an abrupt end.
    pub reconnect_delay: Duration,
}

/// The model of a [`SubscriptionListener`].
#[verifier::ext_equal]
pub struct SubscriptionListenerView {
    /// Whether the server announces changes of its tools.
    pub supports_tool_changes: bool,
    /// Whether the server offers tasks.
    pub supports_tasks: bool,
    /// Delay before opening a replacement listen request after an abrupt end.
    pub reconnect_delay: nat,
}

impl DeepView for SubscriptionListener {
    type V = SubscriptionListenerView;

    open spec fn deep_view(&self) -> SubscriptionListenerView {
        SubscriptionListenerView {
            supports_tool_changes: self.supports_tool_changes,
            supports_tasks: self.supports_tasks,
            reconnect_delay: self.reconnect_delay.deep_view(),
        }
    }
}

/// The listener for a server, where there is anything to listen for.
pub open spec fn listener_of(
    policy: McpSubscriptionPolicyView,
    discovery: DiscoveryView,
) -> Option<SubscriptionListenerView> {
    let supports_tool_changes = discovery.supports_tools && discovery.tools_list_changed == Some(
        true,
    );
    if policy.enabled && (supports_tool_changes || discovery.supports_tasks) {
        Some(
            SubscriptionListenerView {
                supports_tool_changes,
                supports_tasks: discovery.supports_tasks,
                reconnect_delay: policy.reconnect_delay,
            },
        )
    } else {
        None
    }
}

/// What a listener asks for while `task_ids` are watched.
pub open spec fn filter_of(
    listener: SubscriptionListenerView,
    task_ids: Seq<Seq<char>>,
) -> SubscriptionFilterView {
    SubscriptionFilterView {
        tools_list_changed: listener.supports_tool_changes,
        task_ids: if listener.supports_tasks && task_ids.len() > 0 {
            Some(task_ids)
        } else {
            None
        },
    }
}

/// Whether a filter asks for nothing.
pub open spec fn asks_for_nothing(filter: SubscriptionFilterView) -> bool {
    !filter.tools_list_changed && filter.task_ids is None
}

/// What a listener does at an event.
pub open spec fn listen_next(
    listener: SubscriptionListenerView,
    event: ListenEventView,
) -> ListenActionView {
    match event {
        ListenEventView::Round { available, task_ids } => if !available {
            ListenActionView::Stop
        } else if asks_for_nothing(filter_of(listener, task_ids)) {
            ListenActionView::AwaitInterest
        } else {
            ListenActionView::Listen(filter_of(listener, task_ids))
        },
        ListenEventView::IdleInterest { changed } => if changed {
            ListenActionView::NextRound
        } else {
            ListenActionView::Stop
        },
        ListenEventView::Opened { tools_accepted, tasks_accepted } => if tools_accepted != Some(
            true,
        ) && !tasks_accepted {
            ListenActionView::AwaitInterest
        } else {
            ListenActionView::AwaitNext
        },
        ListenEventView::OpenFailed { transport_closed } => if transport_closed {
            ListenActionView::Stop
        } else {
            ListenActionView::SleepThenRound(listener.reconnect_delay)
        },
        ListenEventView::Interest { still_open } => if still_open {
            ListenActionView::CancelAndRestart
        } else {
            ListenActionView::ReadEnd
        },
        ListenEventView::ToolsChanged => ListenActionView::RefreshTools,
        ListenEventView::TaskChanged(task_id) => ListenActionView::WakeTask(task_id),
        ListenEventView::OtherNotification => ListenActionView::AwaitNext,
        ListenEventView::StreamEnded => ListenActionView::ReadEnd,
        ListenEventView::Closed { end, connection_lost } => if (end is Abrupt || end is Lagged || end
            is Unreported) && !connection_lost {
            ListenActionView::SleepThenRound(listener.reconnect_delay)
        } else {
            ListenActionView::Stop
        },
    }
}

/// The listener for a server, where there is anything to listen for. `available` tells whether the
/// client can still take requests; nobody listens for one that is gone.
pub fn spawn_subscription_listener(
    policy: &McpSubscriptionPolicy,
    discovery: &Discovery,
    available: bool,
) -> (listener: Option<SubscriptionListener>)
    ensures
        listener.deep_view() == if available {
            listener_of(policy.deep_view(), discovery.deep_view())
        } else {
            None
        },
{
    let supports_tool_changes = discovery.supports_tools && discovery.tools_list_changed == Some(
        true,
    );
    if !policy.enabled || (!supports_tool_changes && !discovery.supports_tasks) {
        return None;
    }
    if !available {
        return None;
    }
    Some(
        SubscriptionListener {
            supports_tool_changes,
            supports_tasks: discovery.supports_tasks,
            reconnect_delay: policy.reconnect_delay,
        },
    )
}

impl SubscriptionListener {
    /// What to ask for while `task_ids` are watched.
    pub fn filter(&self, task_ids: Vec<String>) -> (filter: SubscriptionFilter)
        ensures
            filter.deep_view() == filter_of(self.deep_view(), task_ids.deep_view()),
    {
        let task_ids = if self.supports_tasks && !task_ids.is_empty() {
            Some(task_ids)
        } else {
            None
        };
        SubscriptionFilter { tools_list_changed: self.supports_tool_changes, task_ids }
    }

    /// What to do at `event`.
    pub fn step(&self, event: ListenEvent) -> (action: ListenAction)
        ensures
            action.deep_view() == listen_next(self.deep_view(), event.deep_view()),
    {
        match event {
            ListenEvent::Round { available, task_ids } => {
                if !available {
                    return ListenAction::Stop;
                }
                let filter = self.filter(task_ids);
                if !filter.tools_list_changed && filter.task_ids.is_none() {
                    ListenAction::AwaitInterest
                } else {
                    ListenAction::Listen(filter)
                }
            },
            ListenEvent::IdleInterest { changed } => if changed {
                ListenAction::NextRound
            } else {
                ListenAction::Stop
            },
            ListenEvent::Opened { tools_accepted, tasks_accepted } => if tools_accepted != Some(
                true,
            ) && !tasks_accepted {
                ListenAction::AwaitInterest
            } else {
                ListenAction::AwaitNext
            },
            ListenEvent::OpenFailed { transport_closed } => if transport_closed {
                ListenAction::Stop
            } else {
                ListenAction::SleepThenRound(self.reconnect_delay)
            },
            ListenEvent::Interest { still_open } => if still_open {
                ListenAction::CancelAndRestart
            } else {
                ListenAction::ReadEnd
            },
            ListenEvent::ToolsChanged => ListenAction::RefreshTools,
            ListenEvent::TaskChanged(task_id) => ListenAction::WakeTask(task_id),
            ListenEvent::OtherNotification => ListenAction::AwaitNext,
            ListenEvent::StreamEnded => ListenAction::ReadEnd,
            ListenEvent::Closed { end, connection_lost } => {
                let broken = match end {
                    SubscriptionEnd::Abrupt => true,
                    SubscriptionEnd::Lagged => true,
                    SubscriptionEnd::Unreported => true,
                    _ => false,
                };
                if broken && !connection_lost {
                    ListenAction::SleepThenRound(self.reconnect_delay)
                } else {
                    ListenAction::Stop
                }
            },
        }
    }
}

/// A listener asks for something in every request, for changes of tools only where the server
/// announces them, and for tasks only where the server offers them and some are watched.
pub proof fn listeners_ask_for_what_is_offered(
    listener: SubscriptionListenerView,
    event: ListenEventView,
)
    ensures
        listen_next(listener, event) matches ListenActionView::Listen(filter) ==> {
            &&& !asks_for_nothing(filter)
            &&& filter.tools_list_changed ==> listener.supports_tool_changes
            &&& filter.task_ids is Some ==> listener.supports_tasks && filter.task_ids->0.len() > 0
            &&& event matches ListenEventView::Round { available: true, task_ids }
                && (filter.task_ids is Some ==> filter.task_ids->0 == task_ids)
        },
{
}

/// A lost subscription is opened anew, after the configured delay, as long as the transport lives;
/// a lost transport ends the listener.
pub proof fn broken_subscriptions_are_reopened(listener: SubscriptionListenerView)
    ensures
        forall|end: SubscriptionEnd|
            end is Abrupt || end is Lagged || end is Unreported ==> #[trigger] listen_next(
                listener,
                ListenEventView::Closed { end, connection_lost: false },
            ) == ListenActionView::SleepThenRound(listener.reconnect_delay),
        listen_next(listener, ListenEventView::OpenFailed { transport_closed: false })
            == ListenActionView::SleepThenRound(listener.reconnect_delay),
        listen_next(listener, ListenEventView::OpenFailed { transport_closed: true }) is Stop,
        forall|end: SubscriptionEnd|
            listen_next(listener, ListenEventView::Closed { end, connection_lost: true }) is Stop,
{
}

/// Without a server that announces anything, or where the policy says so, nobody listens.
pub proof fn no_listener_without_a_reason(
    policy: McpSubscriptionPolicyView,
    discovery: DiscoveryView,
)
    ensures
        listener_of(policy, discovery) is Some <==> policy.enabled && ((discovery.supports_tools
            && discovery.tools_list_changed == Some(true)) || discovery.supports_tasks),
{
}

/// A listener asks for changes of tools exactly where the server announces them, and for the watched
/// tasks exactly where the server offers tasks and some are watched. It waits where that is nothing,
/// and stops where the client takes no requests any more.
pub proof fn rounds_ask_for_everything_there_is(
    listener: SubscriptionListenerView,
    available: bool,
    task_ids: Seq<Seq<char>>,
)
    ensures
        ({
            let action = listen_next(listener, ListenEventView::Round { available, task_ids });
            let watched = listener.supports_tasks && task_ids.len() > 0;
            &&& action is Stop <==> !available
            &&& available && !listener.supports_tool_changes && !watched ==> action
                is AwaitInterest
            &&& available && (listener.supports_tool_changes || watched) ==> (action matches
                ListenActionView::Listen(filter) && {
                &&& filter.tools_list_changed == listener.supports_tool_changes
                &&& filter.task_ids is Some <==> watched
                &&& filter.task_ids matches Some(ids) ==> ids == task_ids
            })
        }),
{
}

/// What the server announces is acted upon: a change of its tools by a refresh, a change of a task
/// by waking whoever waits for that very task, and anything else by waiting for more. A change of
/// the watched tasks opens the request anew.
pub proof fn announcements_are_acted_upon(
    listener: SubscriptionListenerView,
    task_id: Seq<char>,
    tools_accepted: Option<bool>,
    tasks_accepted: bool,
    changed: bool,
)
    ensures
        listen_next(listener, ListenEventView::ToolsChanged) is RefreshTools,
        listen_next(listener, ListenEventView::TaskChanged(task_id)) == ListenActionView::WakeTask(
            task_id,
        ),
        listen_next(listener, ListenEventView::OtherNotification) is AwaitNext,
        listen_next(listener, ListenEventView::StreamEnded) is ReadEnd,
        listen_next(listener, ListenEventView::Opened { tools_accepted, tasks_accepted })
            == if tools_accepted == Some(true) || tasks_accepted {
            ListenActionView::AwaitNext
        } else {
            ListenActionView::AwaitInterest
        },
        listen_next(listener, ListenEventView::IdleInterest { changed }) == if changed {
            ListenActionView::NextRound
        } else {
            ListenActionView::Stop
        },
        listen_next(listener, ListenEventView::Interest { still_open: changed }) == if changed {
            ListenActionView::CancelAndRestart
        } else {
            ListenActionView::ReadEnd
        },
        listen_next(
            listener,
            ListenEventView::Closed { end: SubscriptionEnd::Graceful, connection_lost: false },
        ) is Stop,
        listen_next(
            listener,
            ListenEventView::Closed { end: SubscriptionEnd::Cancelled, connection_lost: false },
        ) is Stop,
{
}

/// A listener knows what the server offers and keeps to the configured delay.
pub proof fn listeners_know_what_the_server_offers(
    policy: McpSubscriptionPolicyView,
    discovery: DiscoveryView,
)
    ensures
        listener_of(policy, discovery) matches Some(listener) ==> {
            &&& listener.supports_tool_changes <==> discovery.supports_tools
                && discovery.tools_list_changed == Some(true)
            &&& listener.supports_tasks == discovery.supports_tasks
            &&& listener.reconnect_delay == policy.reconnect_delay
        },
{
}

} // verus!

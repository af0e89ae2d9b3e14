//! Connecting to a server, and keeping its tools registered.

use vstd::prelude::*;
use vstd::string::*;

use crate::catalog::{
    begin_refresh, committed, new_fetch, newer, refresh_asked, refresh_ended, ManagedToolsState,
    ManagedToolsStateView, RefreshActivity, RefreshActivityView, ToolFetch,
};
use crate::client::{takes_requests, unwatched, McpClientError, McpClientErrorView, McpClientState};
use crate::config::{
    effective_capabilities, ClientInfo, ClientInfoView, McpClientConfig, McpClientConfigView,
    McpRequestTimeoutPolicy, McpRequestTimeoutPolicyView, ProtocolVersionView,
};
use crate::duplicate::Duplicate;
use crate::duration::Duration;
use crate::rmcp_values::{protocol_version_text, spec_protocol_version};
use crate::string_map::StringMap;
use crate::text::same;

verus! {

/// What a server tells about itself.
#[derive(Debug)]
pub struct Discovery {
    /// The protocol versions that it speaks.
    pub supported_versions: Vec<String>,
    /// Whether it offers tools.
    pub supports_tools: bool,
    /// Whether it announces changes of its tools.
    pub tools_list_changed: Option<bool>,
    /// Whether it offers tasks.
    pub supports_tasks: bool,
}

/// The model of a [`Discovery`].
#[verifier::ext_equal]
pub struct DiscoveryView {
    /// The protocol versions that it speaks.
    pub supported_versions: Seq<Seq<char>>,
    /// Whether it offers tools.
    pub supports_tools: bool,
    /// Whether it announces changes of its tools.
    pub tools_list_changed: Option<bool>,
    /// Whether it offers tasks.
    pub supports_tasks: bool,
}

impl DeepView for Discovery {
    type V = DiscoveryView;

    open spec fn deep_view(&self) -> DiscoveryView {
        DiscoveryView {
            supported_versions: self.supported_versions.deep_view(),
            supports_tools: self.supports_tools,
            tools_list_changed: self.tools_list_changed.deep_view(),
            supports_tasks: self.supports_tasks,
        }
    }
}

/// Whether a server speaks the one protocol version.
pub open spec fn speaks_version(discovery: DiscoveryView) -> bool {
    discovery.supported_versions.contains(spec_protocol_version())
}

/// What keeps a client from using a server, if anything.
pub open spec fn discovery_defect(discovery: DiscoveryView) -> Option<McpClientErrorView> {
    if !speaks_version(discovery) {
        Some(McpClientErrorView::UnsupportedProtocolVersion)
    } else if !discovery.supports_tools {
        Some(McpClientErrorView::ToolsNotSupported)
    } else {
        None
    }
}

/// What keeps a client from going on once the service runs, if anything.
pub open spec fn served_defect(served: Result<Option<Seq<char>>, Seq<char>>) -> Option<
    McpClientErrorView,
> {
    match served {
        Err(cause) => Some(McpClientErrorView::ConnectionError(cause)),
        Ok(version) => if version == Some(spec_protocol_version()) {
            None
        } else {
            Some(McpClientErrorView::UnsupportedProtocolVersion)
        },
    }
}

/// What a configured client tells a server about itself.
pub open spec fn info_of_config(config: McpClientConfigView) -> ClientInfoView {
    ClientInfoView {
        protocol_version: ProtocolVersionView { text: spec_protocol_version() },
        capabilities: effective_capabilities(config),
        client_info: config.client_identity,
    }
}

impl Discovery {
    /// Whether the server speaks the one protocol version.
    fn speaks_version(&self) -> (speaks: bool)
        ensures
            speaks == speaks_version(self.deep_view()),
    {
        let version = protocol_version_text();
        let mut i: usize = 0;
        while i < self.supported_versions.len()
            invariant
                i <= self.supported_versions.len(),
                version@ == spec_protocol_version(),
                forall|j: int|
                    0 <= j < i ==> #[trigger] self.supported_versions.deep_view()[j]
                        != spec_protocol_version(),
            decreases self.supported_versions.len() - i,
        {
            if same(self.supported_versions[i].as_str(), version.as_str()) {
                assert(self.supported_versions.deep_view()[i as int] == spec_protocol_version());
                return true;
            }
            i = i + 1;
        }
        false
    }

    /// Checks that a client can use the server.
    pub fn check(&self) -> (checked: Result<(), McpClientError>)
        ensures
            match discovery_defect(self.deep_view()) {
                Some(defect) => checked matches Err(error) && error.deep_view() == defect,
                None => checked is Ok,
            },
    {
        if !self.speaks_version() {
            return Err(McpClientError::UnsupportedProtocolVersion);
        }
        if !self.supports_tools {
            return Err(McpClientError::ToolsNotSupported);
        }
        Ok(())
    }
}

/// An MCP client and the tools that it registered.
#[derive(Debug)]
pub struct McpClientHandler {
    /// The configuration.
    config: McpClientConfig,
    /// The registered tools.
    managed_tools: ManagedToolsState,
    /// The refreshes that run.
    refresh_activity: RefreshActivity,
    /// The number of the last refresh that began.
    next_refresh: u64,
}

/// The model of a [`McpClientHandler`].
#[verifier::ext_equal]
pub struct McpClientHandlerView {
    /// The configuration.
    pub config: McpClientConfigView,
    /// The registered tools.
    pub managed_tools: ManagedToolsStateView,
    /// The refreshes that run.
    pub refresh_activity: RefreshActivityView,
    /// The number of the last refresh that began.
    pub next_refresh: u64,
}

impl DeepView for McpClientHandler {
    type V = McpClientHandlerView;

    closed spec fn deep_view(&self) -> McpClientHandlerView {
        McpClientHandlerView {
            config: self.config.deep_view(),
            managed_tools: self.managed_tools.deep_view(),
            refresh_activity: self.refresh_activity.deep_view(),
            next_refresh: self.next_refresh,
        }
    }
}

/// A handler that has not connected yet.
pub open spec fn new_handler(config: McpClientConfigView) -> McpClientHandlerView {
    McpClientHandlerView {
        config,
        managed_tools: ManagedToolsStateView { registrations: Map::empty(), committed_refresh: 0 },
        refresh_activity: RefreshActivityView { active: 0, dirty: false },
        next_refresh: 0,
    }
}

/// A handler after a refresh was numbered.
pub open spec fn numbered(handler: McpClientHandlerView) -> McpClientHandlerView {
    McpClientHandlerView { next_refresh: (handler.next_refresh + 1) as u64, ..handler }
}

impl McpClientHandler {
    /// A handler with this configuration.
    pub fn new(config: McpClientConfig) -> (handler: McpClientHandler)
        ensures
            handler.deep_view() == new_handler(config.deep_view()),
    {
        McpClientHandler {
            config,
            managed_tools: ManagedToolsState::new(),
            refresh_activity: RefreshActivity::new(),
            next_refresh: 0,
        }
    }

    /// Sets or clears the time limit of every tool call.
    pub fn with_timeout(self, timeout: Option<Duration>) -> (handler: McpClientHandler)
        ensures
            handler.deep_view() == (McpClientHandlerView {
                config: McpClientConfigView {
                    request_timeouts: McpRequestTimeoutPolicyView {
                        tool_call: timeout.deep_view(),
                        ..self.deep_view().config.request_timeouts
                    },
                    ..self.deep_view().config
                },
                ..self.deep_view()
            }),
    {
        let mut policy = self.config.request_timeouts().duplicate();
        policy.tool_call = timeout;
        self.with_policy(policy)
    }

    /// Sets the time limit for fetching the tool list.
    pub fn with_refresh_timeout(self, timeout: Duration) -> (handler: McpClientHandler)
        ensures
            handler.deep_view() == (McpClientHandlerView {
                config: McpClientConfigView {
                    request_timeouts: McpRequestTimeoutPolicyView {
                        catalog: timeout@,
                        ..self.deep_view().config.request_timeouts
                    },
                    ..self.deep_view().config
                },
                ..self.deep_view()
            }),
    {
        let mut policy = self.config.request_timeouts().duplicate();
        policy.catalog = timeout;
        self.with_policy(policy)
    }

    /// Replaces the time limits.
    fn with_policy(self, policy: McpRequestTimeoutPolicy) -> (handler: McpClientHandler)
        ensures
            handler.deep_view() == (McpClientHandlerView {
                config: McpClientConfigView {
                    request_timeouts: policy.deep_view(),
                    ..self.deep_view().config
                },
                ..self.deep_view()
            }),
    {
        McpClientHandler {
            config: self.config.with_request_timeouts(policy),
            managed_tools: self.managed_tools,
            refresh_activity: self.refresh_activity,
            next_refresh: self.next_refresh,
        }
    }

    /// The configuration.
    pub fn config(&self) -> (config: &McpClientConfig)
        ensures
            config.deep_view() == self.deep_view().config,
    {
        &self.config
    }

    /// What the client tells a server about itself.
    pub fn get_info(&self) -> (info: ClientInfo)
        ensures
            info.deep_view() == info_of_config(self.deep_view().config),
    {
        self.config.client_info()
    }

    /// The registered tools.
    pub fn managed_tools(&self) -> (tools: &ManagedToolsState)
        ensures
            tools.deep_view() == self.deep_view().managed_tools,
    {
        &self.managed_tools
    }

    /// Whether another refresh can be numbered.
    pub fn can_refresh(&self) -> (possible: bool)
        ensures
            possible == (self.deep_view().next_refresh < u64::MAX),
    {
        self.next_refresh < u64::MAX
    }

    /// Whether a refresh runs.
    pub fn is_refreshing(&self) -> (running: bool)
        ensures
            running == (self.deep_view().refresh_activity.active > 0),
    {
        self.refresh_activity.active > 0
    }

    /// Numbers a refresh that begins.
    pub fn begin_refresh(&mut self) -> (refresh: u64)
        requires
            old(self).deep_view().next_refresh < u64::MAX,
        ensures
            refresh == old(self).deep_view().next_refresh + 1,
            final(self).deep_view() == numbered(old(self).deep_view()),
    {
        let mut next: u64 = self.next_refresh;
        let refresh: u64 = begin_refresh(&mut next);
        self.next_refresh = next;
        refresh
    }

    /// Begins to fetch the tool list, within the configured time.
    pub fn fetch_tools(&self, now: Duration) -> (fetch: ToolFetch)
        ensures
            fetch.deep_view() == new_fetch(
                self.deep_view().config.request_timeouts.catalog,
                now@,
            ),
    {
        ToolFetch::fetch_tools(self.config.request_timeouts().catalog, now)
    }

    /// Goes on with a connection once the service runs: what Discover has to tell the server, unless
    /// the connection failed or another protocol version was negotiated. `served` is the negotiated
    /// version, if any, or why the connection failed.
    pub fn connect(&self, served: Result<Option<String>, String>) -> (info: Result<
        ClientInfo,
        McpClientError,
    >)
        ensures
            match served_defect(
                match served {
                    Ok(version) => Ok(version.deep_view()),
                    Err(cause) => Err(cause@),
                },
            ) {
                Some(defect) => info matches Err(error) && error.deep_view() == defect,
                None => info matches Ok(told) && told.deep_view() == info_of_config(
                    self.deep_view().config,
                ),
            },
    {
        match served {
            Err(cause) => Err(McpClientError::ConnectionError(cause)),
            Ok(None) => Err(McpClientError::UnsupportedProtocolVersion),
            Ok(Some(version)) => {
                if same(version.as_str(), protocol_version_text().as_str()) {
                    Ok(self.config.client_info())
                } else {
                    Err(McpClientError::UnsupportedProtocolVersion)
                }
            },
        }
    }

    /// Goes on with a connection after Discover: the state of a client that takes requests from now
    /// on, unless Discover failed or the server cannot be used. The first tool list is fetched and
    /// registered next.
    pub fn discovered(&self, discovery: Result<&Discovery, String>) -> (state: Result<
        McpClientState,
        McpClientError,
    >)
        ensures
            match discovery {
                Err(cause) => state matches Err(error) && error.deep_view()
                    == McpClientErrorView::DiscoveryError(cause@),
                Ok(found) => match discovery_defect(found.deep_view()) {
                    Some(defect) => state matches Err(error) && error.deep_view() == defect,
                    None => state matches Ok(client) && {
                        &&& takes_requests(&client)
                        &&& client.deferred_backend_id@
                            == self.deep_view().config.deferred_backend_id
                        &&& client.mrtr_max_rounds == self.deep_view().config.mrtr_max_rounds
                        &&& client.task_notifications.deep_view() == unwatched()
                    },
                },
            },
    {
        let found = match discovery {
            Ok(found) => found,
            Err(cause) => {
                return Err(McpClientError::DiscoveryError(cause));
            },
        };
        match found.check() {
            Ok(()) => Ok(
                McpClientState::new(
                    self.config.deferred_backend_id().to_owned(),
                    self.config.mrtr_max_rounds(),
                ),
            ),
            Err(error) => Err(error),
        }
    }

    /// Notes the registrations of the first tool list; `false` means that the list is stale.
    pub fn commit_initial(&mut self, refresh: u64, registrations: StringMap<u64>) -> (done: bool)
        ensures
            done == newer(old(self).deep_view().managed_tools, refresh),
            final(self).deep_view() == (McpClientHandlerView {
                managed_tools: committed(
                    old(self).deep_view().managed_tools,
                    refresh,
                    registrations.deep_view(),
                ),
                ..old(self).deep_view()
            }),
    {
        self.managed_tools.commit_initial(refresh, registrations)
    }

    /// Notes the registrations of a later tool list; `false` means that the list is stale.
    pub fn commit_refresh(&mut self, refresh: u64, registrations: StringMap<u64>) -> (done: bool)
        ensures
            done == newer(old(self).deep_view().managed_tools, refresh),
            final(self).deep_view() == (McpClientHandlerView {
                managed_tools: committed(
                    old(self).deep_view().managed_tools,
                    refresh,
                    registrations.deep_view(),
                ),
                ..old(self).deep_view()
            }),
    {
        self.managed_tools.commit_refresh(refresh, registrations)
    }

    /// Takes all registrations out, for their removal.
    pub fn remove_owned(&mut self) -> (registrations: StringMap<u64>)
        ensures
            registrations.deep_view() == old(self).deep_view().managed_tools.registrations,
            final(self).deep_view() == (McpClientHandlerView {
                managed_tools: ManagedToolsStateView {
                    registrations: Map::empty(),
                    ..old(self).deep_view().managed_tools
                },
                ..old(self).deep_view()
            }),
    {
        self.managed_tools.remove_owned()
    }

    /// Answers a change of the server's tools: the number of the refresh that has to run now, or
    /// nothing where one that already runs will run once more.
    pub fn refresh_from_subscription(&mut self) -> (refresh: Option<u64>)
        requires
            old(self).deep_view().next_refresh < u64::MAX,
        ensures
            (final(self).deep_view(), refresh) == tools_changed(old(self).deep_view()),
    {
        if self.refresh_activity.try_start_refresh() {
            Some(self.begin_refresh())
        } else {
            None
        }
    }

    /// Ends a refresh, whether it could be registered or not: the number of the refresh that has to
    /// run next, or nothing.
    pub fn finish_refresh(&mut self) -> (next: Option<u64>)
        requires
            old(self).deep_view().refresh_activity.active > 0,
            old(self).deep_view().next_refresh < u64::MAX,
        ensures
            (final(self).deep_view(), next) == refresh_finished(old(self).deep_view()),
    {
        if self.refresh_activity.finish_or_restart_refresh() {
            Some(self.begin_refresh())
        } else {
            None
        }
    }
}

/// A refresh that begins later has a higher number, so that its list counts as newer than that of
/// every refresh before it.
pub proof fn later_refreshes_are_newer(handler: McpClientHandlerView, refresh: u64)
    requires
        handler.next_refresh < u64::MAX,
        refresh <= handler.next_refresh,
        handler.managed_tools.committed_refresh <= handler.next_refresh,
    ensures
        numbered(handler).next_refresh > refresh,
        newer(handler.managed_tools, numbered(handler).next_refresh),
{
}

/// What a change of the server's tools makes of a handler, and the number of the refresh that has to
/// run now, if any.
pub open spec fn tools_changed(handler: McpClientHandlerView) -> (
    McpClientHandlerView,
    Option<u64>,
) {
    let (activity, started) = refresh_asked(handler.refresh_activity);
    let asked = McpClientHandlerView { refresh_activity: activity, ..handler };
    if started {
        (numbered(asked), Some(numbered(asked).next_refresh))
    } else {
        (asked, None)
    }
}

/// What the end of a refresh makes of a handler, and the number of the refresh that has to run next,
/// if any.
pub open spec fn refresh_finished(handler: McpClientHandlerView) -> (
    McpClientHandlerView,
    Option<u64>,
) {
    let (activity, again) = refresh_ended(handler.refresh_activity);
    let ended = McpClientHandlerView { refresh_activity: activity, ..handler };
    if again {
        (numbered(ended), Some(numbered(ended).next_refresh))
    } else {
        (ended, None)
    }
}

/// A change of the tools is never missed: a refresh with a new number begins, or one that runs will
/// be followed by another with a new number. Registered tools and the configuration stay meanwhile.
pub proof fn changes_of_the_tools_are_never_missed(handler: McpClientHandlerView)
    requires
        handler.next_refresh < u64::MAX - 1,
        handler.refresh_activity.active <= 2,
    ensures
        ({
            let (after, refresh) = tools_changed(handler);
            &&& refresh is Some <==> handler.refresh_activity.active < 2
            &&& refresh matches Some(number) ==> number == handler.next_refresh + 1
                && after.next_refresh == number && after.refresh_activity.active
                == handler.refresh_activity.active + 1
            &&& refresh is None ==> {
                let (later, again) = refresh_finished(after);
                &&& again == Some((handler.next_refresh + 1) as u64)
                &&& later.next_refresh == handler.next_refresh + 1
                &&& later.refresh_activity.active == handler.refresh_activity.active
                &&& !later.refresh_activity.dirty
            }
            &&& after.managed_tools == handler.managed_tools && after.config == handler.config
        }),
        handler.refresh_activity.active > 0 && !handler.refresh_activity.dirty ==> {
            let (after, again) = refresh_finished(handler);
            &&& again is None
            &&& after.refresh_activity.active == handler.refresh_activity.active - 1
            &&& after.next_refresh == handler.next_refresh
            &&& after.managed_tools == handler.managed_tools && after.config == handler.config
        },
{
}

/// A server can be used exactly where the negotiated version is the one that is spoken, and where it
/// says that it speaks that version and offers tools. Otherwise the first of these that fails is
/// told, and a connection that failed is told with its cause.
pub proof fn servers_are_used_where_they_fit(
    served: Result<Option<Seq<char>>, Seq<char>>,
    discovery: DiscoveryView,
)
    ensures
        served_defect(served) is None <==> served == Ok::<Option<Seq<char>>, Seq<char>>(
            Some("2026-07-28"@),
        ),
        served matches Err(cause) ==> served_defect(served) == Some(
            McpClientErrorView::ConnectionError(cause),
        ),
        served is Ok && served_defect(served) is Some ==> served_defect(served)->0
            is UnsupportedProtocolVersion,
        discovery_defect(discovery) is None <==> discovery.supported_versions.contains(
            "2026-07-28"@,
        ) && discovery.supports_tools,
        !discovery.supported_versions.contains("2026-07-28"@) ==> discovery_defect(discovery)
            == Some(McpClientErrorView::UnsupportedProtocolVersion),
        discovery.supported_versions.contains("2026-07-28"@) && !discovery.supports_tools
            ==> discovery_defect(discovery) == Some(McpClientErrorView::ToolsNotSupported),
{
}

/// A server is told the spoken version, the configured identity and everything that the client
/// advertises.
pub proof fn servers_are_told_who_asks(config: McpClientConfigView)
    ensures
        info_of_config(config).protocol_version.text == "2026-07-28"@,
        info_of_config(config).client_info == config.client_identity,
        info_of_config(config).capabilities.extensions == Some(config.enabled_extensions),
        info_of_config(config).capabilities.experimental == config.client_capabilities.experimental,
        info_of_config(config).capabilities.roots == config.input_capabilities.roots,
        info_of_config(config).capabilities.sampling == config.input_capabilities.sampling,
        info_of_config(config).capabilities.elicitation == config.input_capabilities.elicitation,
{
}

/// A handler begins with its configuration and nothing registered, and a refresh that it numbers
/// changes nothing else.
pub proof fn handlers_begin_with_their_configuration(
    config: McpClientConfigView,
    handler: McpClientHandlerView,
    key: Seq<char>,
)
    requires
        handler.next_refresh < u64::MAX,
    ensures
        new_handler(config).config == config,
        !new_handler(config).managed_tools.registrations.contains_key(key),
        new_handler(config).managed_tools.committed_refresh == 0,
        new_handler(config).refresh_activity.active == 0,
        !new_handler(config).refresh_activity.dirty,
        new_handler(config).next_refresh == 0,
        numbered(handler).next_refresh == handler.next_refresh + 1,
        numbered(handler).config == handler.config,
        numbered(handler).managed_tools == handler.managed_tools,
        numbered(handler).refresh_activity == handler.refresh_activity,
{
}

} // verus!

//! Configuration of an MCP client.

use vstd::prelude::*;
use vstd::string::*;

use crate::duplicate::Duplicate;
use crate::duration::Duration;
use crate::json::{Json, JsonMap};
use crate::rmcp_values::{
    cache_defaults, default_mrtr_max_rounds, protocol_version_text, spec_protocol_version,
    spec_tasks_extension_id, tasks_extension_id,
};
use crate::string_map::StringMap;

verus! {

/// Timeout settings applied to requests and shutdown owned by one MCP client.
#[derive(Debug)]
pub struct McpRequestTimeoutPolicy {
    /// Maximum time for one tool call. `None` allows an unbounded call.
    pub tool_call: Option<Duration>,
    /// Maximum time for one complete paginated catalog refresh.
    pub catalog: Duration,
    /// Maximum time spent waiting for graceful client shutdown.
    pub shutdown: Duration,
}

/// The model of a [`McpRequestTimeoutPolicy`].
#[verifier::ext_equal]
pub struct McpRequestTimeoutPolicyView {
    /// Maximum time for one tool call. `None` allows an unbounded call.
    pub tool_call: Option<nat>,
    /// Maximum time for one complete paginated catalog refresh.
    pub catalog: nat,
    /// Maximum time spent waiting for graceful client shutdown.
    pub shutdown: nat,
}

impl DeepView for McpRequestTimeoutPolicy {
    type V = McpRequestTimeoutPolicyView;

    open spec fn deep_view(&self) -> McpRequestTimeoutPolicyView {
        McpRequestTimeoutPolicyView {
            tool_call: self.tool_call.deep_view(),
            catalog: self.catalog.deep_view(),
            shutdown: self.shutdown.deep_view(),
        }
    }
}

impl Duplicate for McpRequestTimeoutPolicy {
    fn duplicate(&self) -> (copy: Self) {
        McpRequestTimeoutPolicy {
            tool_call: self.tool_call.duplicate(),
            catalog: self.catalog.duplicate(),
            shutdown: self.shutdown.duplicate(),
        }
    }
}

impl Clone for McpRequestTimeoutPolicy {
    fn clone(&self) -> (copy: Self)
        ensures
            copy.deep_view() == self.deep_view(),
    {
        self.duplicate()
    }
}

/// The time limits that apply where none are configured: five minutes for a tool call, half a minute
/// for the catalog and five seconds for the shutdown.
pub open spec fn default_timeouts() -> McpRequestTimeoutPolicyView {
    McpRequestTimeoutPolicyView {
        tool_call: Some(300_000_000_000),
        catalog: 30_000_000_000,
        shutdown: 5_000_000_000,
    }
}

/// Per-call time limit of MCP tools where none is configured.
pub fn default_mcp_tool_timeout() -> (timeout: Duration)
    ensures
        timeout@ == 300_000_000_000,
{
    Duration::from_secs(300)
}

/// Time limit for fetching a complete tool list where none is configured.
pub fn default_mcp_refresh_timeout() -> (timeout: Duration)
    ensures
        timeout@ == 30_000_000_000,
{
    Duration::from_secs(30)
}

impl Default for McpRequestTimeoutPolicy {
    fn default() -> (policy: Self)
        ensures
            policy.deep_view() == default_timeouts(),
    {
        McpRequestTimeoutPolicy {
            tool_call: Some(default_mcp_tool_timeout()),
            catalog: default_mcp_refresh_timeout(),
            shutdown: Duration::from_secs(5),
        }
    }
}

/// A number of buffered notifications, at least one.
#[derive(Debug, Clone, Copy, PartialEq, Eq, Structural)]
pub struct ChannelCapacity {
    value: usize,
}

impl DeepView for ChannelCapacity {
    type V = usize;

    closed spec fn deep_view(&self) -> usize {
        self.value
    }
}

impl Duplicate for ChannelCapacity {
    fn duplicate(&self) -> (copy: Self) {
        *self
    }
}

impl ChannelCapacity {
    #[verifier::type_invariant]
    spec fn positive(self) -> bool {
        self.value > 0
    }

    /// The capacity of `value`, unless that is zero.
    pub fn new(value: usize) -> (capacity: Option<ChannelCapacity>)
        ensures
            capacity.deep_view() == if value > 0 {
                Some(value)
            } else {
                None
            },
    {
        if value > 0 {
            Some(ChannelCapacity { value })
        } else {
            None
        }
    }

    /// The capacity as a number.
    pub fn get(&self) -> (value: usize)
        ensures
            value == self.deep_view(),
            value > 0,
    {
        proof {
            use_type_invariant(self);
        }
        self.value
    }
}

/// Policy for the guard-owned `subscriptions/listen` worker.
#[derive(Debug)]
pub struct McpSubscriptionPolicy {
    /// Whether supported MCP notifications are listened for.
    pub enabled: bool,
    /// Delay before opening a replacement listen request after an abrupt end.
    pub reconnect_delay: Duration,
    /// Number of buffered subscription notifications.
    pub channel_capacity: ChannelCapacity,
}

/// The model of a [`McpSubscriptionPolicy`].
#[verifier::ext_equal]
pub struct McpSubscriptionPolicyView {
    /// Whether supported MCP notifications are listened for.
    pub enabled: bool,
    /// Delay before opening a replacement listen request after an abrupt end.
    pub reconnect_delay: nat,
    /// Number of buffered subscription notifications.
    pub channel_capacity: usize,
}

impl DeepView for McpSubscriptionPolicy {
    type V = McpSubscriptionPolicyView;

    open spec fn deep_view(&self) -> McpSubscriptionPolicyView {
        McpSubscriptionPolicyView {
            enabled: self.enabled,
            reconnect_delay: self.reconnect_delay.deep_view(),
            channel_capacity: self.channel_capacity.deep_view(),
        }
    }
}

impl Duplicate for McpSubscriptionPolicy {
    fn duplicate(&self) -> (copy: Self) {
        McpSubscriptionPolicy {
            enabled: self.enabled,
            reconnect_delay: self.reconnect_delay.duplicate(),
            channel_capacity: self.channel_capacity.duplicate(),
        }
    }
}

impl Clone for McpSubscriptionPolicy {
    fn clone(&self) -> (copy: Self)
        ensures
            copy.deep_view() == self.deep_view(),
    {
        self.duplicate()
    }
}

/// The subscription policy that applies where none is configured.
pub open spec fn default_subscription() -> McpSubscriptionPolicyView {
    McpSubscriptionPolicyView {
        enabled: true,
        reconnect_delay: 250_000_000,
        channel_capacity: 64,
    }
}

impl Default for McpSubscriptionPolicy {
    fn default() -> (policy: Self)
        ensures
            policy.deep_view() == default_subscription(),
    {
        McpSubscriptionPolicy {
            enabled: true,
            reconnect_delay: Duration::from_millis(250),
            channel_capacity: ChannelCapacity { value: 64 },
        }
    }
}

/// Policy for cached answers of a server.
#[derive(Debug)]
pub struct ClientCacheConfig {
    /// Whether the cache is used.
    pub enabled: bool,
    /// Lifetime of an answer for which the server gives none.
    pub default_ttl: Duration,
    /// Longest lifetime of any answer.
    pub max_ttl: Duration,
    /// Identity of the current authorization context.
    pub private_partition: Option<String>,
    /// Number of answers that are kept; zero is unlimited.
    pub max_entries: usize,
    /// Whether an expired answer serves where a new one cannot be had.
    pub serve_stale_on_error: bool,
}

/// The model of a [`ClientCacheConfig`].
#[verifier::ext_equal]
pub struct ClientCacheConfigView {
    /// Whether the cache is used.
    pub enabled: bool,
    /// Lifetime of an answer for which the server gives none.
    pub default_ttl: nat,
    /// Longest lifetime of any answer.
    pub max_ttl: nat,
    /// Identity of the current authorization context.
    pub private_partition: Option<Seq<char>>,
    /// Number of answers that are kept; zero is unlimited.
    pub max_entries: usize,
    /// Whether an expired answer serves where a new one cannot be had.
    pub serve_stale_on_error: bool,
}

impl DeepView for ClientCacheConfig {
    type V = ClientCacheConfigView;

    open spec fn deep_view(&self) -> ClientCacheConfigView {
        ClientCacheConfigView {
            enabled: self.enabled,
            default_ttl: self.default_ttl.deep_view(),
            max_ttl: self.max_ttl.deep_view(),
            private_partition: self.private_partition.deep_view(),
            max_entries: self.max_entries,
            serve_stale_on_error: self.serve_stale_on_error,
        }
    }
}

impl Duplicate for ClientCacheConfig {
    fn duplicate(&self) -> (copy: Self) {
        ClientCacheConfig {
            enabled: self.enabled,
            default_ttl: self.default_ttl.duplicate(),
            max_ttl: self.max_ttl.duplicate(),
            private_partition: self.private_partition.duplicate(),
            max_entries: self.max_entries,
            serve_stale_on_error: self.serve_stale_on_error,
        }
    }
}

impl Clone for ClientCacheConfig {
    fn clone(&self) -> (copy: Self)
        ensures
            copy.deep_view() == self.deep_view(),
    {
        self.duplicate()
    }
}

/// The cache policy that applies where none is configured.
pub open spec fn default_cache() -> ClientCacheConfigView {
    ClientCacheConfigView {
        enabled: true,
        default_ttl: 0,
        max_ttl: 86_400_000_000_000,
        private_partition: None,
        max_entries: 512,
        serve_stale_on_error: true,
    }
}

impl Default for ClientCacheConfig {
    fn default() -> (config: Self)
        ensures
            config.deep_view() == default_cache(),
    {
        let defaults = cache_defaults();
        ClientCacheConfig {
            enabled: defaults.0,
            default_ttl: Duration::from_secs(defaults.1),
            max_ttl: Duration::from_secs(defaults.2),
            private_partition: defaults.3,
            max_entries: defaults.4,
            serve_stale_on_error: defaults.5,
        }
    }
}

/// Name and version of a client or server.
#[derive(Debug)]
pub struct Implementation {
    /// The name.
    pub name: String,
    /// The name for people.
    pub title: Option<String>,
    /// The version.
    pub version: String,
    /// What it is.
    pub description: Option<String>,
    /// Icons, a JSON array.
    pub icons: Option<Json>,
    /// Where to read more.
    pub website_url: Option<String>,
}

/// The model of a [`Implementation`].
#[verifier::ext_equal]
pub struct ImplementationView {
    /// The name.
    pub name: Seq<char>,
    /// The name for people.
    pub title: Option<Seq<char>>,
    /// The version.
    pub version: Seq<char>,
    /// What it is.
    pub description: Option<Seq<char>>,
    /// Icons, a JSON array.
    pub icons: Option<Seq<char>>,
    /// Where to read more.
    pub website_url: Option<Seq<char>>,
}

impl DeepView for Implementation {
    type V = ImplementationView;

    open spec fn deep_view(&self) -> ImplementationView {
        ImplementationView {
            name: self.name.deep_view(),
            title: self.title.deep_view(),
            version: self.version.deep_view(),
            description: self.description.deep_view(),
            icons: self.icons.deep_view(),
            website_url: self.website_url.deep_view(),
        }
    }
}

impl Duplicate for Implementation {
    fn duplicate(&self) -> (copy: Self) {
        Implementation {
            name: self.name.duplicate(),
            title: self.title.duplicate(),
            version: self.version.duplicate(),
            description: self.description.duplicate(),
            icons: self.icons.duplicate(),
            website_url: self.website_url.duplicate(),
        }
    }
}

impl Clone for Implementation {
    fn clone(&self) -> (copy: Self)
        ensures
            copy.deep_view() == self.deep_view(),
    {
        self.duplicate()
    }
}

impl Implementation {
    /// A name and a version, and nothing else.
    pub fn new(name: String, version: String) -> (implementation: Implementation)
        ensures
            implementation.deep_view() == (ImplementationView {
                name: name@,
                title: None,
                version: version@,
                description: None,
                icons: None,
                website_url: None,
            }),
    {
        Implementation {
            name,
            title: None,
            version,
            description: None,
            icons: None,
            website_url: None,
        }
    }
}

/// Support for roots requests.
#[derive(Debug)]
pub struct RootsCapabilities {
    /// Whether changes of the list are announced.
    pub list_changed: Option<bool>,
}

/// The model of a [`RootsCapabilities`].
#[verifier::ext_equal]
pub struct RootsCapabilitiesView {
    /// Whether changes of the list are announced.
    pub list_changed: Option<bool>,
}

impl DeepView for RootsCapabilities {
    type V = RootsCapabilitiesView;

    open spec fn deep_view(&self) -> RootsCapabilitiesView {
        RootsCapabilitiesView {
            list_changed: self.list_changed.deep_view(),
        }
    }
}

impl Duplicate for RootsCapabilities {
    fn duplicate(&self) -> (copy: Self) {
        RootsCapabilities {
            list_changed: self.list_changed.duplicate(),
        }
    }
}

impl Clone for RootsCapabilities {
    fn clone(&self) -> (copy: Self)
        ensures
            copy.deep_view() == self.deep_view(),
    {
        self.duplicate()
    }
}

/// Support for sampling requests.
#[derive(Debug)]
pub struct SamplingCapability {
    /// Support for tools.
    pub tools: Option<Json>,
    /// Support for context.
    pub context: Option<Json>,
}

/// The model of a [`SamplingCapability`].
#[verifier::ext_equal]
pub struct SamplingCapabilityView {
    /// Support for tools.
    pub tools: Option<Seq<char>>,
    /// Support for context.
    pub context: Option<Seq<char>>,
}

impl DeepView for SamplingCapability {
    type V = SamplingCapabilityView;

    open spec fn deep_view(&self) -> SamplingCapabilityView {
        SamplingCapabilityView {
            tools: self.tools.deep_view(),
            context: self.context.deep_view(),
        }
    }
}

impl Duplicate for SamplingCapability {
    fn duplicate(&self) -> (copy: Self) {
        SamplingCapability {
            tools: self.tools.duplicate(),
            context: self.context.duplicate(),
        }
    }
}

impl Clone for SamplingCapability {
    fn clone(&self) -> (copy: Self)
        ensures
            copy.deep_view() == self.deep_view(),
    {
        self.duplicate()
    }
}

/// Support for forms that a user fills in.
#[derive(Debug)]
pub struct FormElicitationCapability {
    /// Whether answers are checked against the requested schema.
    pub schema_validation: Option<bool>,
}

/// The model of a [`FormElicitationCapability`].
#[verifier::ext_equal]
pub struct FormElicitationCapabilityView {
    /// Whether answers are checked against the requested schema.
    pub schema_validation: Option<bool>,
}

impl DeepView for FormElicitationCapability {
    type V = FormElicitationCapabilityView;

    open spec fn deep_view(&self) -> FormElicitationCapabilityView {
        FormElicitationCapabilityView {
            schema_validation: self.schema_validation.deep_view(),
        }
    }
}

impl Duplicate for FormElicitationCapability {
    fn duplicate(&self) -> (copy: Self) {
        FormElicitationCapability {
            schema_validation: self.schema_validation.duplicate(),
        }
    }
}

impl Clone for FormElicitationCapability {
    fn clone(&self) -> (copy: Self)
        ensures
            copy.deep_view() == self.deep_view(),
    {
        self.duplicate()
    }
}

/// Support for pages that a user visits.
#[derive(Debug, Clone, Copy, PartialEq, Eq, Structural)]
pub enum UrlElicitationCapability {
    /// The mode is supported.
    Supported,
}

impl DeepView for UrlElicitationCapability {
    type V = UrlElicitationCapability;

    open spec fn deep_view(&self) -> UrlElicitationCapability {
        *self
    }
}

impl Duplicate for UrlElicitationCapability {
    fn duplicate(&self) -> (copy: Self) {
        *self
    }
}

/// Support for elicitation requests.
#[derive(Debug)]
pub struct ElicitationCapability {
    /// Support for forms.
    pub form: Option<FormElicitationCapability>,
    /// Support for pages.
    pub url: Option<UrlElicitationCapability>,
}

/// The model of a [`ElicitationCapability`].
#[verifier::ext_equal]
pub struct ElicitationCapabilityView {
    /// Support for forms.
    pub form: Option<FormElicitationCapabilityView>,
    /// Support for pages.
    pub url: Option<UrlElicitationCapability>,
}

impl DeepView for ElicitationCapability {
    type V = ElicitationCapabilityView;

    open spec fn deep_view(&self) -> ElicitationCapabilityView {
        ElicitationCapabilityView {
            form: self.form.deep_view(),
            url: self.url.deep_view(),
        }
    }
}

impl Duplicate for ElicitationCapability {
    fn duplicate(&self) -> (copy: Self) {
        ElicitationCapability {
            form: self.form.duplicate(),
            url: self.url.duplicate(),
        }
    }
}

impl Clone for ElicitationCapability {
    fn clone(&self) -> (copy: Self)
        ensures
            copy.deep_view() == self.deep_view(),
    {
        self.duplicate()
    }
}

/// What a client tells servers that it can do.
#[derive(Debug)]
pub struct ClientCapabilities {
    /// Experimental capabilities by name.
    pub experimental: Option<JsonMap>,
    /// Settings of the supported extensions, by identifier.
    pub extensions: Option<JsonMap>,
    /// Support for roots requests.
    pub roots: Option<RootsCapabilities>,
    /// Support for sampling requests.
    pub sampling: Option<SamplingCapability>,
    /// Support for elicitation requests.
    pub elicitation: Option<ElicitationCapability>,
}

/// The model of a [`ClientCapabilities`].
#[verifier::ext_equal]
pub struct ClientCapabilitiesView {
    /// Experimental capabilities by name.
    pub experimental: Option<Map<Seq<char>, Seq<char>>>,
    /// Settings of the supported extensions, by identifier.
    pub extensions: Option<Map<Seq<char>, Seq<char>>>,
    /// Support for roots requests.
    pub roots: Option<RootsCapabilitiesView>,
    /// Support for sampling requests.
    pub sampling: Option<SamplingCapabilityView>,
    /// Support for elicitation requests.
    pub elicitation: Option<ElicitationCapabilityView>,
}

impl DeepView for ClientCapabilities {
    type V = ClientCapabilitiesView;

    open spec fn deep_view(&self) -> ClientCapabilitiesView {
        ClientCapabilitiesView {
            experimental: self.experimental.deep_view(),
            extensions: self.extensions.deep_view(),
            roots: self.roots.deep_view(),
            sampling: self.sampling.deep_view(),
            elicitation: self.elicitation.deep_view(),
        }
    }
}

impl Duplicate for ClientCapabilities {
    fn duplicate(&self) -> (copy: Self) {
        ClientCapabilities {
            experimental: self.experimental.duplicate(),
            extensions: self.extensions.duplicate(),
            roots: self.roots.duplicate(),
            sampling: self.sampling.duplicate(),
            elicitation: self.elicitation.duplicate(),
        }
    }
}

impl Clone for ClientCapabilities {
    fn clone(&self) -> (copy: Self)
        ensures
            copy.deep_view() == self.deep_view(),
    {
        self.duplicate()
    }
}

/// No capability at all.
pub open spec fn no_capabilities() -> ClientCapabilitiesView {
    ClientCapabilitiesView {
        experimental: None,
        extensions: None,
        roots: None,
        sampling: None,
        elicitation: None,
    }
}

/// Whether the Tasks extension is among the capabilities.
pub open spec fn declares_tasks(capabilities: ClientCapabilitiesView) -> bool {
    capabilities.extensions is Some && capabilities.extensions->0.contains_key(
        spec_tasks_extension_id(),
    )
}

impl Default for ClientCapabilities {
    fn default() -> (capabilities: Self)
        ensures
            capabilities.deep_view() == no_capabilities(),
    {
        ClientCapabilities {
            experimental: None,
            extensions: None,
            roots: None,
            sampling: None,
            elicitation: None,
        }
    }
}

impl ClientCapabilities {
    /// Whether the Tasks extension is declared.
    pub fn supports_tasks(&self) -> (supported: bool)
        ensures
            supported == declares_tasks(self.deep_view()),
    {
        match &self.extensions {
            Some(extensions) => extensions.contains_key(tasks_extension_id()),
            None => false,
        }
    }
}

/// MCP server-to-client input categories backed by an application handler.
#[derive(Debug)]
pub struct McpInputCapabilities {
    /// Support for roots requests.
    roots: Option<RootsCapabilities>,
    /// Support for sampling requests.
    sampling: Option<SamplingCapability>,
    /// Support for elicitation requests.
    elicitation: Option<ElicitationCapability>,
}

/// The model of a [`McpInputCapabilities`].
#[verifier::ext_equal]
pub struct McpInputCapabilitiesView {
    /// Support for roots requests.
    pub roots: Option<RootsCapabilitiesView>,
    /// Support for sampling requests.
    pub sampling: Option<SamplingCapabilityView>,
    /// Support for elicitation requests.
    pub elicitation: Option<ElicitationCapabilityView>,
}

impl DeepView for McpInputCapabilities {
    type V = McpInputCapabilitiesView;

    closed spec fn deep_view(&self) -> McpInputCapabilitiesView {
        McpInputCapabilitiesView {
            roots: self.roots.deep_view(),
            sampling: self.sampling.deep_view(),
            elicitation: self.elicitation.deep_view(),
        }
    }
}

impl Duplicate for McpInputCapabilities {
    fn duplicate(&self) -> (copy: Self) {
        McpInputCapabilities {
            roots: self.roots.duplicate(),
            sampling: self.sampling.duplicate(),
            elicitation: self.elicitation.duplicate(),
        }
    }
}

impl Clone for McpInputCapabilities {
    fn clone(&self) -> (copy: Self)
        ensures
            copy.deep_view() == self.deep_view(),
    {
        self.duplicate()
    }
}

/// No input category.
pub open spec fn no_input() -> McpInputCapabilitiesView {
    McpInputCapabilitiesView { roots: None, sampling: None, elicitation: None }
}

impl Default for McpInputCapabilities {
    fn default() -> (capabilities: Self)
        ensures
            capabilities.deep_view() == no_input(),
    {
        McpInputCapabilities { roots: None, sampling: None, elicitation: None }
    }
}

impl McpInputCapabilities {
    /// Declare support for roots requests.
    pub fn with_roots(self, capability: RootsCapabilities) -> (capabilities: McpInputCapabilities)
        ensures
            capabilities.deep_view() == (McpInputCapabilitiesView {
                roots: Some(capability.deep_view()),
                ..self.deep_view()
            }),
    {
        let mut capabilities = self;
        capabilities.roots = Some(capability);
        capabilities
    }

    /// Declare support for sampling requests.
    pub fn with_sampling(self, capability: SamplingCapability) -> (capabilities:
        McpInputCapabilities)
        ensures
            capabilities.deep_view() == (McpInputCapabilitiesView {
                sampling: Some(capability.deep_view()),
                ..self.deep_view()
            }),
    {
        let mut capabilities = self;
        capabilities.sampling = Some(capability);
        capabilities
    }

    /// Declare support for elicitation requests.
    pub fn with_elicitation(self, capability: ElicitationCapability) -> (capabilities:
        McpInputCapabilities)
        ensures
            capabilities.deep_view() == (McpInputCapabilitiesView {
                elicitation: Some(capability.deep_view()),
                ..self.deep_view()
            }),
    {
        let mut capabilities = self;
        capabilities.elicitation = Some(capability);
        capabilities
    }
}

/// A version of the MCP protocol.
#[derive(Debug)]
pub struct ProtocolVersion {
    /// The date that names the version.
    pub text: String,
}

/// The model of a [`ProtocolVersion`].
#[verifier::ext_equal]
pub struct ProtocolVersionView {
    /// The date that names the version.
    pub text: Seq<char>,
}

impl DeepView for ProtocolVersion {
    type V = ProtocolVersionView;

    open spec fn deep_view(&self) -> ProtocolVersionView {
        ProtocolVersionView {
            text: self.text.deep_view(),
        }
    }
}

/// What a client tells a server about itself.
#[derive(Debug)]
pub struct ClientInfo {
    /// The protocol version that the client speaks.
    pub protocol_version: ProtocolVersion,
    /// What the client can do.
    pub capabilities: ClientCapabilities,
    /// Who the client is.
    pub client_info: Implementation,
}

/// The model of a [`ClientInfo`].
#[verifier::ext_equal]
pub struct ClientInfoView {
    /// The protocol version that the client speaks.
    pub protocol_version: ProtocolVersionView,
    /// What the client can do.
    pub capabilities: ClientCapabilitiesView,
    /// Who the client is.
    pub client_info: ImplementationView,
}

impl DeepView for ClientInfo {
    type V = ClientInfoView;

    open spec fn deep_view(&self) -> ClientInfoView {
        ClientInfoView {
            protocol_version: self.protocol_version.deep_view(),
            capabilities: self.capabilities.deep_view(),
            client_info: self.client_info.deep_view(),
        }
    }
}

/// Configuration of a stateless MCP client.
#[derive(Debug)]
pub struct McpClientConfig {
    /// Who the client is.
    client_identity: Implementation,
    /// Capabilities other than extensions and input categories.
    client_capabilities: ClientCapabilities,
    /// Settings of the advertised extensions.
    enabled_extensions: JsonMap,
    /// Time limits.
    request_timeouts: McpRequestTimeoutPolicy,
    /// How notifications are listened for.
    subscription: McpSubscriptionPolicy,
    /// How answers are cached.
    cache: ClientCacheConfig,
    /// The advertised input categories.
    input_capabilities: McpInputCapabilities,
    /// Resolver key in durable descriptors.
    deferred_backend_id: String,
    /// Limit of the input rounds of one tool call.
    mrtr_max_rounds: usize,
}

/// The model of a [`McpClientConfig`].
#[verifier::ext_equal]
pub struct McpClientConfigView {
    /// Who the client is.
    pub client_identity: ImplementationView,
    /// Capabilities other than extensions and input categories.
    pub client_capabilities: ClientCapabilitiesView,
    /// Settings of the advertised extensions.
    pub enabled_extensions: Map<Seq<char>, Seq<char>>,
    /// Time limits.
    pub request_timeouts: McpRequestTimeoutPolicyView,
    /// How notifications are listened for.
    pub subscription: McpSubscriptionPolicyView,
    /// How answers are cached.
    pub cache: ClientCacheConfigView,
    /// The advertised input categories.
    pub input_capabilities: McpInputCapabilitiesView,
    /// Resolver key in durable descriptors.
    pub deferred_backend_id: Seq<char>,
    /// Limit of the input rounds of one tool call.
    pub mrtr_max_rounds: usize,
}

impl DeepView for McpClientConfig {
    type V = McpClientConfigView;

    closed spec fn deep_view(&self) -> McpClientConfigView {
        McpClientConfigView {
            client_identity: self.client_identity.deep_view(),
            client_capabilities: self.client_capabilities.deep_view(),
            enabled_extensions: self.enabled_extensions.deep_view(),
            request_timeouts: self.request_timeouts.deep_view(),
            subscription: self.subscription.deep_view(),
            cache: self.cache.deep_view(),
            input_capabilities: self.input_capabilities.deep_view(),
            deferred_backend_id: self.deferred_backend_id.deep_view(),
            mrtr_max_rounds: self.mrtr_max_rounds,
        }
    }
}

impl Duplicate for McpClientConfig {
    fn duplicate(&self) -> (copy: Self) {
        proof {
            use_type_invariant(self);
        }
        McpClientConfig {
            client_identity: self.client_identity.duplicate(),
            client_capabilities: self.client_capabilities.duplicate(),
            enabled_extensions: self.enabled_extensions.duplicate(),
            request_timeouts: self.request_timeouts.duplicate(),
            subscription: self.subscription.duplicate(),
            cache: self.cache.duplicate(),
            input_capabilities: self.input_capabilities.duplicate(),
            deferred_backend_id: self.deferred_backend_id.duplicate(),
            mrtr_max_rounds: self.mrtr_max_rounds,
        }
    }
}

impl Clone for McpClientConfig {
    fn clone(&self) -> (copy: Self)
        ensures
            copy.deep_view() == self.deep_view(),
    {
        self.duplicate()
    }
}

/// The configuration that a client starts from: Tasks enabled, no input category advertised.
pub open spec fn new_config(identity: ImplementationView) -> McpClientConfigView {
    McpClientConfigView {
        client_identity: identity,
        client_capabilities: no_capabilities(),
        enabled_extensions: Map::empty().insert(spec_tasks_extension_id(), "{}"@),
        request_timeouts: default_timeouts(),
        subscription: default_subscription(),
        cache: default_cache(),
        input_capabilities: no_input(),
        deferred_backend_id: "mcp:"@ + identity.name,
        mrtr_max_rounds: 10,
    }
}

/// Extensions with Tasks among them; its settings are empty where none are given.
pub open spec fn with_tasks(extensions: Map<Seq<char>, Seq<char>>) -> Map<Seq<char>, Seq<char>> {
    if extensions.contains_key(spec_tasks_extension_id()) {
        extensions
    } else {
        extensions.insert(spec_tasks_extension_id(), "{}"@)
    }
}

/// A configuration whose capabilities other than extensions and input categories are replaced.
pub open spec fn with_base(
    config: McpClientConfigView,
    capabilities: ClientCapabilitiesView,
) -> McpClientConfigView {
    McpClientConfigView {
        client_capabilities: ClientCapabilitiesView {
            extensions: None,
            roots: None,
            sampling: None,
            elicitation: None,
            ..capabilities
        },
        ..config
    }
}

/// A configuration whose extensions are replaced.
pub open spec fn with_extensions(
    config: McpClientConfigView,
    extensions: Map<Seq<char>, Seq<char>>,
) -> McpClientConfigView {
    McpClientConfigView { enabled_extensions: with_tasks(extensions), ..config }
}

/// The capabilities that a configured client advertises.
pub open spec fn effective_capabilities(config: McpClientConfigView) -> ClientCapabilitiesView {
    ClientCapabilitiesView {
        experimental: config.client_capabilities.experimental,
        extensions: Some(config.enabled_extensions),
        roots: config.input_capabilities.roots,
        sampling: config.input_capabilities.sampling,
        elicitation: config.input_capabilities.elicitation,
    }
}

impl McpClientConfig {
    /// Whether Tasks is among the advertised extensions, as every configuration has it.
    #[verifier::type_invariant]
    spec fn tasks_enabled(self) -> bool {
        self.enabled_extensions.deep_view().contains_key(spec_tasks_extension_id())
    }

    /// A configuration with Tasks enabled and no input category advertised.
    pub fn new(client_identity: Implementation) -> (config: McpClientConfig)
        ensures
            config.deep_view() == new_config(client_identity.deep_view()),
    {
        let mut enabled_extensions: JsonMap = StringMap::new();
        assert(enabled_extensions.deep_view() =~= Map::<Seq<char>, Seq<char>>::empty());
        enabled_extensions.put(tasks_extension_id().to_owned(), Json::empty_object());
        let mut deferred_backend_id = "mcp:".to_owned();
        deferred_backend_id.append(client_identity.name.as_str());
        McpClientConfig {
            client_identity,
            client_capabilities: ClientCapabilities::default(),
            enabled_extensions,
            request_timeouts: McpRequestTimeoutPolicy::default(),
            subscription: McpSubscriptionPolicy::default(),
            cache: ClientCacheConfig::default(),
            input_capabilities: McpInputCapabilities::default(),
            deferred_backend_id,
            mrtr_max_rounds: default_mrtr_max_rounds(),
        }
    }

    /// The only protocol version that is spoken.
    pub fn protocol_version(&self) -> (version: ProtocolVersion)
        ensures
            version.text@ == spec_protocol_version(),
    {
        ProtocolVersion { text: protocol_version_text() }
    }

    /// Replace the capabilities other than extensions. Extensions and input categories are left out
    /// of them: those are reserved for [`McpClientConfig::with_enabled_extensions`] and
    /// [`McpClientConfig::with_input_capabilities`].
    pub fn with_client_capabilities(self, capabilities: ClientCapabilities) -> (config:
        McpClientConfig)
        ensures
            config.deep_view() == with_base(self.deep_view(), capabilities.deep_view()),
    {
        proof {
            use_type_invariant(&self);
        }
        let mut config = self;
        config.client_capabilities =
        ClientCapabilities {
            experimental: capabilities.experimental,
            extensions: None,
            roots: None,
            sampling: None,
            elicitation: None,
        };
        config
    }

    /// Advertise only input categories the application can actually fulfil.
    pub fn with_input_capabilities(self, capabilities: McpInputCapabilities) -> (config:
        McpClientConfig)
        ensures
            config.deep_view() == (McpClientConfigView {
                input_capabilities: capabilities.deep_view(),
                ..self.deep_view()
            }),
    {
        proof {
            use_type_invariant(&self);
        }
        let mut config = self;
        config.input_capabilities = capabilities;
        config
    }

    /// Replace the advertised extension settings. Tasks is added back, as it is always advertised.
    pub fn with_enabled_extensions(self, extensions: JsonMap) -> (config: McpClientConfig)
        ensures
            config.deep_view() == with_extensions(self.deep_view(), extensions.deep_view()),
    {
        proof {
            use_type_invariant(&self);
        }
        let mut extensions = extensions;
        if !extensions.contains_key(tasks_extension_id()) {
            extensions.put(tasks_extension_id().to_owned(), Json::empty_object());
        }
        let mut config = self;
        config.enabled_extensions = extensions;
        config
    }

    /// Configure request deadlines.
    pub fn with_request_timeouts(self, policy: McpRequestTimeoutPolicy) -> (config: McpClientConfig)
        ensures
            config.deep_view() == (McpClientConfigView {
                request_timeouts: policy.deep_view(),
                ..self.deep_view()
            }),
    {
        proof {
            use_type_invariant(&self);
        }
        let mut config = self;
        config.request_timeouts = policy;
        config
    }

    /// Configure the notification listener.
    pub fn with_subscription_policy(self, policy: McpSubscriptionPolicy) -> (config: McpClientConfig)
        ensures
            config.deep_view() == (McpClientConfigView {
                subscription: policy.deep_view(),
                ..self.deep_view()
            }),
    {
        proof {
            use_type_invariant(&self);
        }
        let mut config = self;
        config.subscription = policy;
        config
    }

    /// Configure cache TTL, scope partitioning, and stale-response behavior.
    pub fn with_cache_policy(self, policy: ClientCacheConfig) -> (config: McpClientConfig)
        ensures
            config.deep_view() == (McpClientConfigView {
                cache: policy.deep_view(),
                ..self.deep_view()
            }),
    {
        proof {
            use_type_invariant(&self);
        }
        let mut config = self;
        config.cache = policy;
        config
    }

    /// Set the stable resolver key stored in serialized MCP deferred descriptors.
    pub fn with_deferred_backend_id(self, backend_id: String) -> (config: McpClientConfig)
        ensures
            config.deep_view() == (McpClientConfigView {
                deferred_backend_id: backend_id@,
                ..self.deep_view()
            }),
    {
        proof {
            use_type_invariant(&self);
        }
        let mut config = self;
        config.deferred_backend_id = backend_id;
        config
    }

    /// Bound the number of direct MRTR input rounds for one tool call.
    pub fn with_mrtr_max_rounds(self, max_rounds: usize) -> (config: McpClientConfig)
        ensures
            config.deep_view() == (McpClientConfigView {
                mrtr_max_rounds: max_rounds,
                ..self.deep_view()
            }),
    {
        proof {
            use_type_invariant(&self);
        }
        let mut config = self;
        config.mrtr_max_rounds = max_rounds;
        config
    }

    /// Client identity sent by Discover and every later request.
    pub fn client_identity(&self) -> (identity: &Implementation)
        ensures
            identity.deep_view() == self.deep_view().client_identity,
    {
        &self.client_identity
    }

    /// Effective capabilities, including all configured extensions. Tasks is always among them.
    pub fn client_capabilities(&self) -> (capabilities: ClientCapabilities)
        ensures
            capabilities.deep_view() == effective_capabilities(self.deep_view()),
            declares_tasks(capabilities.deep_view()),
    {
        proof {
            use_type_invariant(self);
        }
        ClientCapabilities {
            experimental: self.client_capabilities.experimental.duplicate(),
            extensions: Some(self.enabled_extensions.duplicate()),
            roots: self.input_capabilities.roots.duplicate(),
            sampling: self.input_capabilities.sampling.duplicate(),
            elicitation: self.input_capabilities.elicitation.duplicate(),
        }
    }

    /// Request timeout policy.
    pub fn request_timeouts(&self) -> (policy: &McpRequestTimeoutPolicy)
        ensures
            policy.deep_view() == self.deep_view().request_timeouts,
    {
        &self.request_timeouts
    }

    /// Subscription policy.
    pub fn subscription_policy(&self) -> (policy: &McpSubscriptionPolicy)
        ensures
            policy.deep_view() == self.deep_view().subscription,
    {
        &self.subscription
    }

    /// Cache policy.
    pub fn cache_policy(&self) -> (policy: &ClientCacheConfig)
        ensures
            policy.deep_view() == self.deep_view().cache,
    {
        &self.cache
    }

    /// Stable deferred resolver key used by this authenticated client context.
    pub fn deferred_backend_id(&self) -> (id: &str)
        ensures
            id@ == self.deep_view().deferred_backend_id,
    {
        self.deferred_backend_id.as_str()
    }

    /// Maximum direct MRTR input rounds.
    pub fn mrtr_max_rounds(&self) -> (rounds: usize)
        ensures
            rounds == self.deep_view().mrtr_max_rounds,
    {
        self.mrtr_max_rounds
    }

    /// What the client tells a server about itself.
    pub fn client_info(&self) -> (info: ClientInfo)
        ensures
            info.deep_view() == (ClientInfoView {
                protocol_version: ProtocolVersionView { text: spec_protocol_version() },
                capabilities: effective_capabilities(self.deep_view()),
                client_info: self.deep_view().client_identity,
            }),
    {
        ClientInfo {
            protocol_version: self.protocol_version(),
            capabilities: self.client_capabilities(),
            client_info: self.client_identity.duplicate(),
        }
    }
}

/// Tasks is advertised by default and after any replacement of the extensions.
pub proof fn tasks_always_advertised(
    identity: ImplementationView,
    config: McpClientConfigView,
    extensions: Map<Seq<char>, Seq<char>>,
)
    ensures
        declares_tasks(effective_capabilities(new_config(identity))),
        declares_tasks(effective_capabilities(with_extensions(config, extensions))),
{
}

/// A replacement of the extensions leaves exactly the new ones and Tasks, whatever was enabled
/// before; each keeps its settings, and Tasks has empty ones where none are given. A replacement of
/// the other capabilities changes no extension, whatever extensions it names.
pub proof fn extensions_are_replaced_whole(
    config: McpClientConfigView,
    capabilities: ClientCapabilitiesView,
    extensions: Map<Seq<char>, Seq<char>>,
    key: Seq<char>,
)
    ensures
        ({
            let advertised = effective_capabilities(with_extensions(config, extensions)).extensions;
            &&& advertised == Some(with_tasks(extensions))
            &&& advertised->0.contains_key(key) <==> extensions.contains_key(key) || key
                == spec_tasks_extension_id()
            &&& extensions.contains_key(key) ==> advertised->0[key] == extensions[key]
            &&& !extensions.contains_key(spec_tasks_extension_id())
                ==> advertised->0[spec_tasks_extension_id()] == "{}"@
        }),
        effective_capabilities(with_base(config, capabilities)).extensions
            == effective_capabilities(config).extensions,
{
}

/// Input categories are advertised exactly as the application declared them, whatever the other
/// capabilities say.
pub proof fn input_categories_only_as_declared(
    config: McpClientConfigView,
    capabilities: ClientCapabilitiesView,
)
    ensures
        ({
            let effective = effective_capabilities(with_base(config, capabilities));
            &&& effective.roots == config.input_capabilities.roots
            &&& effective.sampling == config.input_capabilities.sampling
            &&& effective.elicitation == config.input_capabilities.elicitation
        }),
{
}

/// A configuration begins with its identity, which also names its backend, with Tasks as its only
/// extension, no input category, ten rounds, and the times and policies that apply where none are
/// configured.
pub proof fn configurations_begin_with_the_defaults(
    identity: ImplementationView,
    key: Seq<char>,
)
    ensures
        ({
            let config = new_config(identity);
            &&& config.client_identity == identity
            &&& config.deferred_backend_id == "mcp:"@ + identity.name
            &&& config.enabled_extensions.contains_key(key) <==> key
                == "io.modelcontextprotocol/tasks"@
            &&& config.input_capabilities.roots is None
            &&& config.input_capabilities.sampling is None
            &&& config.input_capabilities.elicitation is None
            &&& config.client_capabilities.experimental is None
            &&& config.mrtr_max_rounds == 10
            &&& config.request_timeouts.tool_call == Some(300_000_000_000nat)
            &&& config.request_timeouts.catalog == 30_000_000_000
            &&& config.request_timeouts.shutdown == 5_000_000_000
            &&& config.subscription.enabled
            &&& config.subscription.reconnect_delay == 250_000_000
            &&& config.subscription.channel_capacity == 64
            &&& config.cache.enabled && config.cache.serve_stale_on_error
            &&& config.cache.default_ttl == 0 && config.cache.max_ttl == 86_400_000_000_000
            &&& config.cache.private_partition is None && config.cache.max_entries == 512
        }),
{
}

/// A replacement of the other capabilities takes the experimental ones over, and no replacement
/// touches what it is not about.
pub proof fn replacements_touch_what_they_are_about(
    config: McpClientConfigView,
    capabilities: ClientCapabilitiesView,
    extensions: Map<Seq<char>, Seq<char>>,
)
    ensures
        effective_capabilities(with_base(config, capabilities)).experimental
            == capabilities.experimental,
        effective_capabilities(with_extensions(config, extensions)).experimental
            == config.client_capabilities.experimental,
        forall|after: McpClientConfigView|
            #![trigger after.client_identity]
            after == with_base(config, capabilities) || after == with_extensions(
                config,
                extensions,
            ) ==> {
                &&& after.client_identity == config.client_identity
                &&& after.request_timeouts == config.request_timeouts
                &&& after.subscription == config.subscription
                &&& after.cache == config.cache
                &&& after.input_capabilities == config.input_capabilities
                &&& after.deferred_backend_id == config.deferred_backend_id
                &&& after.mrtr_max_rounds == config.mrtr_max_rounds
            },
{
}

/// Capabilities declare tasks exactly where the extension is among them.
pub proof fn tasks_are_declared_by_their_extension(capabilities: ClientCapabilitiesView)
    ensures
        declares_tasks(capabilities) <==> capabilities.extensions is Some
            && capabilities.extensions->0.contains_key("io.modelcontextprotocol/tasks"@),
{
}

} // verus!

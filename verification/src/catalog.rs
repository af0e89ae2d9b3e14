//! The tool list of a server: fetching it page by page, and keeping the newest.

use vstd::prelude::*;
use vstd::string::*;

use crate::client::{McpClientError, McpClientErrorView};
use crate::duplicate::Duplicate;
use crate::duration::{monus, Duration};
use crate::json::Json;
use crate::model::{ServiceError, ServiceErrorView};
use crate::string_map::StringMap;
use crate::text::same;
use crate::tool::{McpTool, McpToolView};

verus! {

/// A tool as its server describes it.
#[derive(Debug)]
pub struct ToolDefinition {
    /// The name of the tool.
    pub name: String,
    /// What the tool does.
    pub description: Option<String>,
    /// The JSON schema of the arguments.
    pub parameters: Json,
}

/// The model of a [`ToolDefinition`].
#[verifier::ext_equal]
pub struct ToolDefinitionView {
    /// The name of the tool.
    pub name: Seq<char>,
    /// What the tool does.
    pub description: Option<Seq<char>>,
    /// The JSON schema of the arguments.
    pub parameters: Seq<char>,
}

impl DeepView for ToolDefinition {
    type V = ToolDefinitionView;

    open spec fn deep_view(&self) -> ToolDefinitionView {
        ToolDefinitionView {
            name: self.name.deep_view(),
            description: self.description.deep_view(),
            parameters: self.parameters.deep_view(),
        }
    }
}

impl Duplicate for ToolDefinition {
    fn duplicate(&self) -> (copy: Self) {
        ToolDefinition {
            name: self.name.duplicate(),
            description: self.description.duplicate(),
            parameters: self.parameters.duplicate(),
        }
    }
}

impl Clone for ToolDefinition {
    fn clone(&self) -> (copy: Self)
        ensures
            copy.deep_view() == self.deep_view(),
    {
        self.duplicate()
    }
}

/// One page of a tool list.
#[derive(Debug)]
pub struct ToolListPage {
    /// The tools on the page.
    pub tools: Vec<ToolDefinition>,
    /// Where the next page begins; `None` on the last page.
    pub next_cursor: Option<String>,
    /// How long the page may be cached.
    pub ttl_ms: Option<u64>,
    /// Who may share the cached page.
    pub cache_scope: Option<String>,
    /// What kind of result the page is.
    pub result_type: Option<String>,
}

/// The model of a [`ToolListPage`].
#[verifier::ext_equal]
pub struct ToolListPageView {
    /// The tools on the page.
    pub tools: Seq<ToolDefinitionView>,
    /// Where the next page begins; `None` on the last page.
    pub next_cursor: Option<Seq<char>>,
    /// How long the page may be cached.
    pub ttl_ms: Option<u64>,
    /// Who may share the cached page.
    pub cache_scope: Option<Seq<char>>,
    /// What kind of result the page is.
    pub result_type: Option<Seq<char>>,
}

impl DeepView for ToolListPage {
    type V = ToolListPageView;

    open spec fn deep_view(&self) -> ToolListPageView {
        ToolListPageView {
            tools: self.tools.deep_view(),
            next_cursor: self.next_cursor.deep_view(),
            ttl_ms: self.ttl_ms.deep_view(),
            cache_scope: self.cache_scope.deep_view(),
            result_type: self.result_type.deep_view(),
        }
    }
}

/// What became of asking for a page.
#[derive(Debug)]
pub enum PageOutcome {
    /// The page.
    Page(ToolListPage),
    /// The request failed.
    Failed(ServiceError),
    /// No answer came in time.
    TimedOut,
}

/// The model of a [`PageOutcome`].
#[verifier::ext_equal]
pub enum PageOutcomeView {
    /// The page.
    Page(ToolListPageView),
    /// The request failed.
    Failed(ServiceErrorView),
    /// No answer came in time.
    TimedOut,
}

impl DeepView for PageOutcome {
    type V = PageOutcomeView;

    open spec fn deep_view(&self) -> PageOutcomeView {
        match self {
            PageOutcome::Page(value) => PageOutcomeView::Page(value.deep_view()),
            PageOutcome::Failed(value) => PageOutcomeView::Failed(value.deep_view()),
            PageOutcome::TimedOut => PageOutcomeView::TimedOut,
        }
    }
}

/// How a fetch goes on.
#[derive(Debug)]
pub enum FetchProgress {
    /// Another page has to be asked for.
    More,
    /// The list is complete.
    Done,
    /// The fetch failed.
    Failed(McpClientError),
}

/// The model of a [`FetchProgress`].
#[verifier::ext_equal]
pub enum FetchProgressView {
    /// Another page has to be asked for.
    More,
    /// The list is complete.
    Done,
    /// The fetch failed.
    Failed(McpClientErrorView),
}

impl DeepView for FetchProgress {
    type V = FetchProgressView;

    open spec fn deep_view(&self) -> FetchProgressView {
        match self {
            FetchProgress::More => FetchProgressView::More,
            FetchProgress::Done => FetchProgressView::Done,
            FetchProgress::Failed(value) => FetchProgressView::Failed(value.deep_view()),
        }
    }
}

/// A tool list that is being fetched.
#[derive(Debug)]
pub struct ToolFetch {
    /// When the fetch began, on the monotonic clock.
    started: Duration,
    /// How long it may take.
    timeout: Duration,
    /// Where the next page begins.
    cursor: Option<String>,
    /// Whether the fetch began anew after a cursor failed.
    restarted: bool,
    /// The tools so far.
    tools: Vec<ToolDefinition>,
}

/// The model of a [`ToolFetch`].
#[verifier::ext_equal]
pub struct ToolFetchView {
    /// When the fetch began, on the monotonic clock.
    pub started: nat,
    /// How long it may take.
    pub timeout: nat,
    /// Where the next page begins.
    pub cursor: Option<Seq<char>>,
    /// Whether the fetch began anew after a cursor failed.
    pub restarted: bool,
    /// The tools so far.
    pub tools: Seq<ToolDefinitionView>,
}

impl DeepView for ToolFetch {
    type V = ToolFetchView;

    closed spec fn deep_view(&self) -> ToolFetchView {
        ToolFetchView {
            started: self.started.deep_view(),
            timeout: self.timeout.deep_view(),
            cursor: self.cursor.deep_view(),
            restarted: self.restarted,
            tools: self.tools.deep_view(),
        }
    }
}

/// A fetch that has not asked for a page yet.
pub open spec fn new_fetch(timeout: nat, now: nat) -> ToolFetchView {
    ToolFetchView {
        started: now,
        timeout,
        cursor: None,
        restarted: false,
        tools: Seq::empty(),
    }
}

/// The time that is left of a fetch.
pub open spec fn fetch_time_left(fetch: ToolFetchView, now: nat) -> nat {
    monus(fetch.timeout, monus(now, fetch.started))
}

/// What is wrong with a page, if anything: it must say how it may be cached, and that it is
/// complete.
pub open spec fn page_defect(page: ToolListPageView) -> Option<McpClientErrorView> {
    if page.ttl_ms is None || page.cache_scope is None {
        Some(McpClientErrorView::MissingToolListCacheHints)
    } else if page.result_type != Some("complete"@) {
        Some(McpClientErrorView::InvalidToolListResultType)
    } else {
        None
    }
}

/// What an answer makes of a fetch. The first failure behind a cursor starts it anew.
pub open spec fn page_received(fetch: ToolFetchView, outcome: PageOutcomeView) -> (
    ToolFetchView,
    FetchProgressView,
) {
    match outcome {
        PageOutcomeView::TimedOut => (
            fetch,
            FetchProgressView::Failed(McpClientErrorView::ToolFetchTimeout(fetch.timeout)),
        ),
        PageOutcomeView::Failed(error) => if fetch.cursor is Some && !fetch.restarted {
            (
                ToolFetchView { cursor: None, restarted: true, tools: Seq::empty(), ..fetch },
                FetchProgressView::More,
            )
        } else {
            (fetch, FetchProgressView::Failed(McpClientErrorView::ToolFetchError(error)))
        },
        PageOutcomeView::Page(page) => match page_defect(page) {
            Some(defect) => (fetch, FetchProgressView::Failed(defect)),
            None => (
                ToolFetchView {
                    cursor: page.next_cursor,
                    tools: fetch.tools + page.tools,
                    ..fetch
                },
                if page.next_cursor is Some {
                    FetchProgressView::More
                } else {
                    FetchProgressView::Done
                },
            ),
        },
    }
}

/// A tool of the list as an ordinary tool.
pub open spec fn built_tool(definition: ToolDefinitionView, timeout: Option<nat>) -> McpToolView {
    McpToolView {
        name: definition.name,
        description: definition.description,
        parameters: definition.parameters,
        timeout,
    }
}

/// The tools of a fetched list, in the order of the pages.
pub open spec fn catalog_tools(fetch: ToolFetchView, timeout: Option<nat>) -> Seq<McpToolView> {
    Seq::new(fetch.tools.len(), |i: int| built_tool(fetch.tools[i], timeout))
}

/// The model of what a fetch asks for next.
pub open spec fn request_view(
    request: Result<(Option<String>, Duration), McpClientError>,
) -> Result<(Option<Seq<char>>, nat), McpClientErrorView> {
    match request {
        Ok((cursor, within)) => Ok((cursor.deep_view(), within@)),
        Err(error) => Err(error.deep_view()),
    }
}

/// What a fetch asks for next: the page at its cursor, within the time that is left.
pub open spec fn page_request(fetch: ToolFetchView, now: nat) -> Result<
    (Option<Seq<char>>, nat),
    McpClientErrorView,
> {
    if fetch_time_left(fetch, now) == 0 {
        Err(McpClientErrorView::ToolFetchTimeout(fetch.timeout))
    } else {
        Ok((fetch.cursor, fetch_time_left(fetch, now)))
    }
}

/// Builds a tool with the configured time limit.
pub fn build_tool(definition: ToolDefinition, timeout: Option<Duration>) -> (tool: McpTool)
    ensures
        tool.deep_view() == built_tool(definition.deep_view(), timeout.deep_view()),
{
    McpTool::from_mcp_server(
        definition.name,
        definition.description,
        definition.parameters,
    ).with_timeout(timeout)
}

impl ToolFetch {
    /// Begins to fetch a tool list.
    pub fn fetch_tools(timeout: Duration, now: Duration) -> (fetch: ToolFetch)
        ensures
            fetch.deep_view() == new_fetch(timeout@, now@),
    {
        let tools: Vec<ToolDefinition> = Vec::new();
        assert(tools.deep_view() =~= Seq::<ToolDefinitionView>::empty());
        ToolFetch { started: now, timeout, cursor: None, restarted: false, tools }
    }

    /// The next page to ask for, and how long the answer may take; nothing once the time is over.
    pub fn next_request(&self, now: Duration) -> (request: Result<
        (Option<String>, Duration),
        McpClientError,
    >)
        ensures
            request_view(request) == page_request(self.deep_view(), now@),
    {
        let left = self.timeout.saturating_sub(now.saturating_sub(self.started));
        if left.is_zero() {
            Err(McpClientError::ToolFetchTimeout(self.timeout))
        } else {
            Ok((self.cursor.duplicate(), left))
        }
    }

    /// Takes an answer into account.
    pub fn page(&mut self, outcome: PageOutcome) -> (progress: FetchProgress)
        ensures
            (final(self).deep_view(), progress.deep_view()) == page_received(
                old(self).deep_view(),
                outcome.deep_view(),
            ),
    {
        match outcome {
            PageOutcome::TimedOut => FetchProgress::Failed(
                McpClientError::ToolFetchTimeout(self.timeout),
            ),
            PageOutcome::Failed(error) => {
                if self.cursor.is_some() && !self.restarted {
                    self.restarted = true;
                    self.cursor = None;
                    self.tools.clear();
                    assert(self.tools.deep_view() =~= Seq::<ToolDefinitionView>::empty());
                    FetchProgress::More
                } else {
                    FetchProgress::Failed(McpClientError::ToolFetchError(error))
                }
            },
            PageOutcome::Page(page) => {
                if page.ttl_ms.is_none() || page.cache_scope.is_none() {
                    return FetchProgress::Failed(McpClientError::MissingToolListCacheHints);
                }
                let complete = match &page.result_type {
                    Some(result_type) => same(result_type.as_str(), "complete"),
                    None => false,
                };
                if !complete {
                    return FetchProgress::Failed(McpClientError::InvalidToolListResultType);
                }
                let ghost before = self.tools.deep_view();
                let ghost added = page.tools.deep_view();
                let mut tools = page.tools;
                self.tools.append(&mut tools);
                assert(self.tools.deep_view() =~= before + added);
                self.cursor = page.next_cursor;
                if self.cursor.is_some() {
                    FetchProgress::More
                } else {
                    FetchProgress::Done
                }
            },
        }
    }

    /// The fetched tools, in the order of the pages, each with the configured time limit.
    pub fn into_tools(self, timeout: Option<Duration>) -> (tools: Vec<McpTool>)
        ensures
            tools.deep_view() == catalog_tools(self.deep_view(), timeout.deep_view()),
    {
        let mut tools: Vec<McpTool> = Vec::new();
        let mut i: usize = 0;
        while i < self.tools.len()
            invariant
                i <= self.tools.len(),
                tools.len() == i,
                forall|j: int|
                    0 <= j < i ==> (#[trigger] tools@[j]).deep_view() == built_tool(
                        self.tools@[j].deep_view(),
                        timeout.deep_view(),
                    ),
            decreases self.tools.len() - i,
        {
            tools.push(build_tool(self.tools[i].duplicate(), timeout));
            i = i + 1;
        }
        assert(tools.deep_view() =~= catalog_tools(self.deep_view(), timeout.deep_view()));
        tools
    }
}

/// A fetch after several answers, and how it goes on then. Answers behind its end are ignored.
pub open spec fn fetched_so_far(start: ToolFetchView, outcomes: Seq<PageOutcomeView>) -> (
    ToolFetchView,
    FetchProgressView,
)
    decreases outcomes.len(),
{
    if outcomes.len() == 0 {
        (start, FetchProgressView::More)
    } else {
        let (before, progress) = fetched_so_far(start, outcomes.drop_last());
        if progress is More {
            page_received(before, outcomes.last())
        } else {
            (before, progress)
        }
    }
}

/// The tools on the pages behind the last failure.
pub open spec fn tools_since_failure(outcomes: Seq<PageOutcomeView>) -> Seq<ToolDefinitionView>
    decreases outcomes.len(),
{
    if outcomes.len() == 0 {
        Seq::empty()
    } else {
        match outcomes.last() {
            PageOutcomeView::Page(page) => tools_since_failure(outcomes.drop_last()) + page.tools,
            _ => Seq::empty(),
        }
    }
}

/// The number of failed requests.
pub open spec fn failures(outcomes: Seq<PageOutcomeView>) -> nat
    decreases outcomes.len(),
{
    if outcomes.len() == 0 {
        0
    } else {
        failures(outcomes.drop_last()) + if outcomes.last() is Page {
            0nat
        } else {
            1nat
        }
    }
}

/// A fetch that goes on or has come to its end holds exactly the tools of the pages since it last
/// began, in order. It begins anew at most once, and no tool from before that survives.
pub proof fn fetches_hold_one_chain_of_pages(
    timeout: nat,
    now: nat,
    outcomes: Seq<PageOutcomeView>,
)
    ensures
        ({
            let (fetch, progress) = fetched_so_far(new_fetch(timeout, now), outcomes);
            progress is More || (progress is Done && outcomes.len() > 0 && fetched_so_far(
                new_fetch(timeout, now),
                outcomes.drop_last(),
            ).1 is More) ==> {
                &&& fetch.tools == tools_since_failure(outcomes)
                &&& failures(outcomes) <= 1
                &&& fetch.restarted == (failures(outcomes) == 1)
                &&& fetch.timeout == timeout
                &&& fetch.started == now
            }
        }),
    decreases outcomes.len(),
{
    if outcomes.len() > 0 {
        fetches_hold_one_chain_of_pages(timeout, now, outcomes.drop_last());
    }
}

/// A list is complete only with a last page that is free of defects and names no further page.
pub proof fn complete_lists_end_with_a_last_page(fetch: ToolFetchView, outcome: PageOutcomeView)
    requires
        page_received(fetch, outcome).1 is Done,
    ensures
        outcome matches PageOutcomeView::Page(page) && page.next_cursor is None && page_defect(page)
            is None,
{
}

/// How many refreshes run, and whether another was asked for meanwhile.
#[derive(Debug)]
pub struct RefreshActivity {
    /// How many run.
    pub active: usize,
    /// Whether another was asked for when no more could be started.
    pub dirty: bool,
}

/// The model of a [`RefreshActivity`].
#[verifier::ext_equal]
pub struct RefreshActivityView {
    /// How many run.
    pub active: usize,
    /// Whether another was asked for when no more could be started.
    pub dirty: bool,
}

impl DeepView for RefreshActivity {
    type V = RefreshActivityView;

    open spec fn deep_view(&self) -> RefreshActivityView {
        RefreshActivityView {
            active: self.active,
            dirty: self.dirty,
        }
    }
}

/// How many refreshes may run at once.
pub const MAX_CONCURRENT_REFRESHES: usize = 2;

/// Whether a refresh may start, and the activity then.
pub open spec fn refresh_asked(activity: RefreshActivityView) -> (RefreshActivityView, bool) {
    if activity.active >= MAX_CONCURRENT_REFRESHES {
        (RefreshActivityView { dirty: true, ..activity }, false)
    } else {
        (RefreshActivityView { active: (activity.active + 1) as usize, ..activity }, true)
    }
}

/// Whether a refresh that came to its end has to run once more, and the activity then.
pub open spec fn refresh_ended(activity: RefreshActivityView) -> (RefreshActivityView, bool) {
    if activity.dirty {
        (RefreshActivityView { dirty: false, ..activity }, true)
    } else {
        (RefreshActivityView { active: (activity.active - 1) as usize, ..activity }, false)
    }
}

impl RefreshActivity {
    /// No refresh runs.
    pub fn new() -> (activity: RefreshActivity)
        ensures
            activity.deep_view() == (RefreshActivityView { active: 0, dirty: false }),
    {
        RefreshActivity { active: 0, dirty: false }
    }

    /// Asks for a refresh; `false` means that enough run already, and one of them will run again.
    pub fn try_start_refresh(&mut self) -> (started: bool)
        ensures
            (final(self).deep_view(), started) == refresh_asked(old(self).deep_view()),
    {
        if self.active >= MAX_CONCURRENT_REFRESHES {
            self.dirty = true;
            false
        } else {
            self.active = self.active + 1;
            true
        }
    }

    /// Ends a refresh; `true` means that it has to run once more.
    pub fn finish_or_restart_refresh(&mut self) -> (again: bool)
        requires
            old(self).deep_view().active > 0,
        ensures
            (final(self).deep_view(), again) == refresh_ended(old(self).deep_view()),
    {
        if self.dirty {
            self.dirty = false;
            true
        } else {
            self.active = self.active - 1;
            false
        }
    }
}

/// Whether the bound on concurrent refreshes holds, and nothing is asked for in vain.
pub open spec fn activity_valid(activity: RefreshActivityView) -> bool {
    &&& activity.active <= MAX_CONCURRENT_REFRESHES
    &&& activity.dirty ==> activity.active > 0
}

/// Never more than two refreshes run, and whoever was turned away is served: some refresh runs
/// that will run once more.
pub proof fn refreshes_are_bounded_and_served(activity: RefreshActivityView)
    requires
        activity_valid(activity),
    ensures
        activity_valid(refresh_asked(activity).0),
        !refresh_asked(activity).1 ==> refresh_asked(activity).0.dirty,
        activity.active > 0 ==> activity_valid(refresh_ended(activity).0),
        activity.dirty ==> refresh_ended(activity).1,
        refresh_ended(activity).1 ==> refresh_ended(activity).0.active == activity.active,
{
}

/// Which tools are registered for a server, and since which refresh.
#[derive(Debug)]
pub struct ManagedToolsState {
    /// The registration token of each tool.
    registrations: StringMap<u64>,
    /// The last refresh whose list was registered.
    committed_refresh: u64,
}

/// The model of a [`ManagedToolsState`].
#[verifier::ext_equal]
pub struct ManagedToolsStateView {
    /// The registration token of each tool.
    pub registrations: Map<Seq<char>, u64>,
    /// The last refresh whose list was registered.
    pub committed_refresh: u64,
}

impl DeepView for ManagedToolsState {
    type V = ManagedToolsStateView;

    closed spec fn deep_view(&self) -> ManagedToolsStateView {
        ManagedToolsStateView {
            registrations: self.registrations.deep_view(),
            committed_refresh: self.committed_refresh,
        }
    }
}

/// Whether the list of a refresh is newer than the registered one.
pub open spec fn newer(state: ManagedToolsStateView, refresh: u64) -> bool {
    refresh > state.committed_refresh
}

/// The state after the list of a refresh was registered.
pub open spec fn committed(
    state: ManagedToolsStateView,
    refresh: u64,
    registrations: Map<Seq<char>, u64>,
) -> ManagedToolsStateView {
    if newer(state, refresh) {
        ManagedToolsStateView { registrations, committed_refresh: refresh }
    } else {
        state
    }
}

impl ManagedToolsState {
    /// Nothing is registered.
    pub fn new() -> (state: ManagedToolsState)
        ensures
            state.deep_view() == (ManagedToolsStateView {
                registrations: Map::empty(),
                committed_refresh: 0,
            }),
    {
        let state = ManagedToolsState { registrations: StringMap::new(), committed_refresh: 0 };
        assert(state.registrations.deep_view() =~= Map::<Seq<char>, u64>::empty());
        state
    }

    /// Whether the list of a refresh may be registered. A list that is not newer than the
    /// registered one is stale.
    pub fn accepts(&self, refresh: u64) -> (accepted: bool)
        ensures
            accepted == newer(self.deep_view(), refresh),
    {
        refresh > self.committed_refresh
    }

    /// The registrations that a refresh has to reconcile with.
    pub fn registrations(&self) -> (registrations: &StringMap<u64>)
        ensures
            registrations.deep_view() == self.deep_view().registrations,
    {
        &self.registrations
    }

    /// Notes the registrations of the first list; `false` means that the list is stale.
    pub fn commit_initial(&mut self, refresh: u64, registrations: StringMap<u64>) -> (done: bool)
        ensures
            done == newer(old(self).deep_view(), refresh),
            final(self).deep_view() == committed(
                old(self).deep_view(),
                refresh,
                registrations.deep_view(),
            ),
    {
        self.commit_refresh(refresh, registrations)
    }

    /// Notes the registrations of a later list; `false` means that the list is stale.
    pub fn commit_refresh(&mut self, refresh: u64, registrations: StringMap<u64>) -> (done: bool)
        ensures
            done == newer(old(self).deep_view(), refresh),
            final(self).deep_view() == committed(
                old(self).deep_view(),
                refresh,
                registrations.deep_view(),
            ),
    {
        if refresh <= self.committed_refresh {
            return false;
        }
        self.registrations = registrations;
        self.committed_refresh = refresh;
        true
    }

    /// Takes all registrations out, for their removal.
    pub fn remove_owned(&mut self) -> (registrations: StringMap<u64>)
        ensures
            registrations.deep_view() == old(self).deep_view().registrations,
            final(self).deep_view() == (ManagedToolsStateView {
                registrations: Map::empty(),
                ..old(self).deep_view()
            }),
    {
        let mut taken: StringMap<u64> = StringMap::new();
        assert(taken.deep_view() =~= Map::<Seq<char>, u64>::empty());
        std::mem::swap(&mut self.registrations, &mut taken);
        taken
    }
}

/// A slow older list never replaces a newer one: in whichever order two lists arrive, the newer one
/// is registered in the end, and the number of the registered refresh never falls.
pub proof fn newest_list_wins(
    state: ManagedToolsStateView,
    older: u64,
    newer_refresh: u64,
    old_registrations: Map<Seq<char>, u64>,
    new_registrations: Map<Seq<char>, u64>,
)
    requires
        older < newer_refresh,
        newer(state, newer_refresh),
    ensures
        ({
            let in_order = committed(
                committed(state, older, old_registrations),
                newer_refresh,
                new_registrations,
            );
            let overtaken = committed(
                committed(state, newer_refresh, new_registrations),
                older,
                old_registrations,
            );
            &&& in_order == overtaken
            &&& in_order.registrations == new_registrations
            &&& in_order.committed_refresh == newer_refresh
            &&& committed(state, older, old_registrations).committed_refresh
                >= state.committed_refresh
        }),
{
}

/// The number of the next refresh; each is higher than the last.
pub fn begin_refresh(next_refresh: &mut u64) -> (refresh: u64)
    requires
        *old(next_refresh) < u64::MAX,
    ensures
        refresh == *old(next_refresh) + 1,
        *final(next_refresh) == refresh,
{
    *next_refresh = *next_refresh + 1;
    *next_refresh
}

/// Each tool of a fetched list is the server's: it has the name, the description and the parameter
/// schema of the definition at the same place in the list, and only its time limit comes from the
/// configuration. No tool is added and none is left out.
pub proof fn tools_are_what_the_server_defined(
    fetch: ToolFetchView,
    timeout: Option<nat>,
    i: int,
)
    requires
        0 <= i < fetch.tools.len(),
    ensures
        catalog_tools(fetch, timeout).len() == fetch.tools.len(),
        catalog_tools(fetch, timeout)[i].name == fetch.tools[i].name,
        catalog_tools(fetch, timeout)[i].description == fetch.tools[i].description,
        catalog_tools(fetch, timeout)[i].parameters == fetch.tools[i].parameters,
        catalog_tools(fetch, timeout)[i].timeout == timeout,
{
}

/// A page that can be used is appended as it is: the tools that were there stay in their places, and
/// those of the page follow in its order. The next page is asked for by the cursor of this one, and
/// the list is complete where there is none.
pub proof fn pages_are_appended_in_order(fetch: ToolFetchView, page: ToolListPageView)
    requires
        page.ttl_ms is Some,
        page.cache_scope is Some,
        page.result_type == Some("complete"@),
    ensures
        ({
            let (next, progress) = page_received(fetch, PageOutcomeView::Page(page));
            &&& next.tools.len() == fetch.tools.len() + page.tools.len()
            &&& forall|i: int| 0 <= i < fetch.tools.len() ==> #[trigger] next.tools[i] == fetch.tools[i]
            &&& forall|i: int|
                0 <= i < page.tools.len() ==> next.tools[fetch.tools.len() + i]
                    == #[trigger] page.tools[i]
            &&& next.cursor == page.next_cursor
            &&& next.restarted == fetch.restarted
            &&& next.started == fetch.started && next.timeout == fetch.timeout
            &&& progress is Done <==> page.next_cursor is None
            &&& progress is More <==> page.next_cursor is Some
        }),
{
}

/// A page without its cache hints, or that does not say that it is complete, fails the fetch by what
/// is missing. A page that comes too late fails it by its time limit. A request for a later page
/// that fails makes the fetch begin again, once and with nothing kept of the stale pages; any other
/// failed request fails the fetch by its own failure.
pub proof fn unusable_pages_end_or_restart_the_fetch(
    fetch: ToolFetchView,
    page: ToolListPageView,
    error: ServiceErrorView,
)
    ensures
        page.ttl_ms is None || page.cache_scope is None ==> page_received(
            fetch,
            PageOutcomeView::Page(page),
        ) == (fetch, FetchProgressView::Failed(McpClientErrorView::MissingToolListCacheHints)),
        page.ttl_ms is Some && page.cache_scope is Some && page.result_type != Some("complete"@)
            ==> page_received(fetch, PageOutcomeView::Page(page)) == (
            fetch,
            FetchProgressView::Failed(McpClientErrorView::InvalidToolListResultType),
        ),
        page_received(fetch, PageOutcomeView::TimedOut) == (
            fetch,
            FetchProgressView::Failed(McpClientErrorView::ToolFetchTimeout(fetch.timeout)),
        ),
        ({
            let (next, progress) = page_received(fetch, PageOutcomeView::Failed(error));
            if fetch.cursor is Some && !fetch.restarted {
                &&& progress is More
                &&& next.cursor is None && next.restarted && next.tools.len() == 0
                &&& next.started == fetch.started && next.timeout == fetch.timeout
            } else {
                &&& next == fetch
                &&& progress == FetchProgressView::Failed(McpClientErrorView::ToolFetchError(error))
            }
        }),
{
}

/// A fetch begins at the first page with nothing kept, and its time runs from then on: what is left
/// of it and what has passed add up to the limit until nothing is left.
pub proof fn fetches_begin_afresh_and_in_time(timeout: nat, now: nat, later: nat)
    requires
        now <= later,
    ensures
        ({
            let fetch = new_fetch(timeout, now);
            &&& fetch.cursor is None && !fetch.restarted && fetch.tools.len() == 0
            &&& fetch.timeout == timeout && fetch.started == now
            &&& later <= now + timeout ==> fetch_time_left(fetch, later) + (later - now) == timeout
            &&& later >= now + timeout ==> fetch_time_left(fetch, later) == 0
        }),
{
}

/// A refresh that is asked for begins while fewer than two run; otherwise one of those that run is
/// marked to run again. A refresh that ends runs again exactly where it is marked, and else makes
/// room for another one.
pub proof fn refreshes_run_or_are_marked(activity: RefreshActivityView)
    requires
        activity.active <= 2,
    ensures
        refresh_asked(activity).1 <==> activity.active < 2,
        refresh_asked(activity).1 ==> refresh_asked(activity).0.active == activity.active + 1
            && refresh_asked(activity).0.dirty == activity.dirty,
        !refresh_asked(activity).1 ==> refresh_asked(activity).0.active == activity.active
            && refresh_asked(activity).0.dirty,
        activity.active > 0 ==> {
            &&& refresh_ended(activity).1 <==> activity.dirty
            &&& !refresh_ended(activity).0.dirty
            &&& refresh_ended(activity).0.active == if activity.dirty {
                activity.active as int
            } else {
                activity.active - 1
            }
        },
{
}

/// A list is registered exactly where it is newer than the registered one, and then whole; a stale
/// list changes nothing.
pub proof fn stale_lists_change_nothing(
    state: ManagedToolsStateView,
    refresh: u64,
    registrations: Map<Seq<char>, u64>,
)
    ensures
        newer(state, refresh) <==> refresh > state.committed_refresh,
        refresh > state.committed_refresh ==> committed(
            state,
            refresh,
            registrations,
        ).registrations == registrations && committed(
            state,
            refresh,
            registrations,
        ).committed_refresh == refresh,
        refresh <= state.committed_refresh ==> committed(state, refresh, registrations) == state,
{
}

/// A page is asked for by the cursor of the page before it, and its answer may take until the time
/// limit of the whole fetch and no longer; once that has passed nothing is asked for, and the limit
/// is told.
pub proof fn pages_are_asked_for_in_time(fetch: ToolFetchView, now: nat)
    requires
        fetch.started <= now,
    ensures
        now < fetch.started + fetch.timeout ==> (page_request(fetch, now) matches Ok((cursor, within))
            && cursor == fetch.cursor && now + within == fetch.started + fetch.timeout),
        now >= fetch.started + fetch.timeout ==> page_request(fetch, now) == Err::<
            (Option<Seq<char>>, nat),
            McpClientErrorView,
        >(McpClientErrorView::ToolFetchTimeout(fetch.timeout)),
{
}

} // verus!

//! Notifications of MCP servers: routing of task status updates, and what is passed on.

use vstd::prelude::*;
use vstd::string::*;

use crate::duplicate::Duplicate;
use crate::json::Json;
use crate::model::{Task, TaskView};
use crate::string_map::StringMap;
use crate::task_handle::{
    convert_status, converted, update_of, TaskStatusUpdate, TaskStatusUpdateView,
};

verus! {

/// Receives the MCP notifications that have no meaning of their own here. They are passed on after
/// the tool list was refreshed and the task status published. Every method does nothing unless an
/// implementation says otherwise. Parameters come as JSON objects.
pub trait McpNotificationDelegate {
    /// `notifications/progress`: progress of a request.
    fn on_progress(&self, params: &Json) {
    }

    /// `notifications/resources/updated`: a subscribed resource changed.
    fn on_resource_updated(&self, params: &Json) {
    }

    /// `notifications/resources/list_changed`.
    fn on_resource_list_changed(&self) {
    }

    /// `notifications/prompts/list_changed`.
    fn on_prompt_list_changed(&self) {
    }

    /// `notifications/cancelled`: the server cancelled a request.
    fn on_cancelled(&self, params: &Json) {
    }

    /// A notification outside the MCP protocol.
    fn on_custom_notification(&self, method: &str, params: Option<&Json>) {
    }

    /// `notifications/tools/list_changed`, after the tools were fetched and registered anew.
    fn on_tool_list_changed(&self) {
    }

    /// `notifications/tasks/status`, after the update was published.
    fn on_task_status(&self, task: &Task) {
    }
}

/// Where the status updates of one task arrive.
#[derive(Debug)]
pub struct NotificationSlot {
    /// The last update.
    pub latest: Option<TaskStatusUpdate>,
    /// How many receivers there are.
    pub receivers: u64,
    /// Tells this slot from an earlier one of the same task.
    pub generation: u64,
    /// Changes with every update.
    pub version: u64,
}

/// The model of a [`NotificationSlot`].
#[verifier::ext_equal]
pub struct NotificationSlotView {
    /// The last update.
    pub latest: Option<TaskStatusUpdateView>,
    /// How many receivers there are.
    pub receivers: u64,
    /// Tells this slot from an earlier one of the same task.
    pub generation: u64,
    /// Changes with every update.
    pub version: u64,
}

impl DeepView for NotificationSlot {
    type V = NotificationSlotView;

    open spec fn deep_view(&self) -> NotificationSlotView {
        NotificationSlotView {
            latest: self.latest.deep_view(),
            receivers: self.receivers,
            generation: self.generation,
            version: self.version,
        }
    }
}

impl Duplicate for NotificationSlot {
    fn duplicate(&self) -> (copy: Self) {
        NotificationSlot {
            latest: self.latest.duplicate(),
            receivers: self.receivers,
            generation: self.generation,
            version: self.version,
        }
    }
}

impl Clone for NotificationSlot {
    fn clone(&self) -> (copy: Self)
        ensures
            copy.deep_view() == self.deep_view(),
    {
        self.duplicate()
    }
}

/// One receiver's place at a slot.
#[derive(Debug)]
pub struct Subscription {
    /// The task.
    pub task_id: String,
    /// The slot of the task.
    pub generation: u64,
    /// The version that the receiver has seen.
    pub seen: u64,
}

/// What a receiver finds at its slot.
#[derive(Debug)]
pub enum Reading {
    /// The slot is gone: no update will come any more.
    Closed,
    /// Nothing has come since the receiver last looked.
    Unchanged,
    /// A new update.
    Update(TaskStatusUpdate),
}

/// The model of a [`Reading`].
#[verifier::ext_equal]
pub enum ReadingView {
    /// The slot is gone: no update will come any more.
    Closed,
    /// Nothing has come since the receiver last looked.
    Unchanged,
    /// A new update.
    Update(TaskStatusUpdateView),
}

impl DeepView for Reading {
    type V = ReadingView;

    open spec fn deep_view(&self) -> ReadingView {
        match self {
            Reading::Closed => ReadingView::Closed,
            Reading::Unchanged => ReadingView::Unchanged,
            Reading::Update(update) => ReadingView::Update(update.deep_view()),
        }
    }
}

/// Routes status updates to the handles that wait for them.
#[derive(Debug)]
pub struct McpTaskNotifications {
    slots: StringMap<NotificationSlot>,
    generations: u64,
}

/// The model of [`McpTaskNotifications`].
#[verifier::ext_equal]
pub struct NotificationsView {
    /// The slots by task.
    pub slots: Map<Seq<char>, NotificationSlotView>,
    /// How many slots have ever been made.
    pub generations: u64,
}

impl DeepView for McpTaskNotifications {
    type V = NotificationsView;

    closed spec fn deep_view(&self) -> NotificationsView {
        NotificationsView { slots: self.slots.deep_view(), generations: self.generations }
    }
}

/// The version behind `version`.
pub open spec fn next_version(version: u64) -> u64 {
    if version == u64::MAX {
        0
    } else {
        (version + 1) as u64
    }
}

/// The registry after `task` was published. A task without a slot changes nothing; a terminal
/// status without receivers takes the slot away.
pub open spec fn published(registry: NotificationsView, task: TaskView) -> NotificationsView {
    if !registry.slots.contains_key(task.task_id) {
        registry
    } else {
        let slot = registry.slots[task.task_id];
        if converted(task.status).terminal() && slot.receivers == 0 {
            NotificationsView { slots: registry.slots.remove(task.task_id), ..registry }
        } else {
            NotificationsView {
                slots: registry.slots.insert(
                    task.task_id,
                    NotificationSlotView {
                        latest: Some(update_of(task)),
                        version: next_version(slot.version),
                        ..slot
                    },
                ),
                ..registry
            }
        }
    }
}

/// Whether another receiver for `task_id` can be counted.
pub open spec fn can_count(registry: NotificationsView, task_id: Seq<char>) -> bool {
    &&& registry.slots.contains_key(task_id) ==> registry.slots[task_id].receivers < u64::MAX
    &&& registry.generations < u64::MAX
}

/// The registry after a receiver came for `task_id`.
pub open spec fn subscribed(registry: NotificationsView, task_id: Seq<char>) -> NotificationsView {
    if registry.slots.contains_key(task_id) {
        let slot = registry.slots[task_id];
        NotificationsView {
            slots: registry.slots.insert(
                task_id,
                NotificationSlotView { receivers: (slot.receivers + 1) as u64, ..slot },
            ),
            ..registry
        }
    } else {
        NotificationsView {
            slots: registry.slots.insert(
                task_id,
                NotificationSlotView {
                    latest: None,
                    receivers: 1,
                    generation: registry.generations,
                    version: 0,
                },
            ),
            generations: (registry.generations + 1) as u64,
        }
    }
}

/// Whether the slot of a receiver is still there.
pub open spec fn attached(
    registry: NotificationsView,
    task_id: Seq<char>,
    generation: u64,
) -> bool {
    registry.slots.contains_key(task_id) && registry.slots[task_id].generation == generation
}

/// The registry after a receiver left.
pub open spec fn unsubscribed(
    registry: NotificationsView,
    task_id: Seq<char>,
    generation: u64,
) -> NotificationsView {
    let slot = registry.slots[task_id];
    if attached(registry, task_id, generation) && slot.receivers > 0 {
        NotificationsView {
            slots: registry.slots.insert(
                task_id,
                NotificationSlotView { receivers: (slot.receivers - 1) as u64, ..slot },
            ),
            ..registry
        }
    } else {
        registry
    }
}

/// What a receiver finds that last saw the version `seen`, and the version that it has seen then.
pub open spec fn read(
    registry: NotificationsView,
    task_id: Seq<char>,
    generation: u64,
    seen: u64,
) -> (ReadingView, u64) {
    let slot = registry.slots[task_id];
    if !attached(registry, task_id, generation) {
        (ReadingView::Closed, seen)
    } else if slot.version == seen || slot.latest is None {
        (ReadingView::Unchanged, seen)
    } else {
        (ReadingView::Update(slot.latest->0), slot.version)
    }
}

/// The registry after the slot of a task was taken away.
pub open spec fn released(registry: NotificationsView, task_id: Seq<char>) -> NotificationsView {
    NotificationsView { slots: registry.slots.remove(task_id), ..registry }
}

impl McpTaskNotifications {
    /// A registry without slots.
    pub fn new() -> (registry: McpTaskNotifications)
        ensures
            registry.deep_view() == (NotificationsView { slots: Map::empty(), generations: 0 }),
    {
        let registry = McpTaskNotifications { slots: StringMap::new(), generations: 0 };
        assert(registry.slots.deep_view() =~= Map::<Seq<char>, NotificationSlotView>::empty());
        registry
    }

    /// How many tasks have a slot.
    pub fn len(&self) -> (count: usize)
        ensures
            count == self.deep_view().slots.dom().len(),
            self.deep_view().slots.dom().finite(),
    {
        assert(self.slots.deep_view().dom() =~= self.slots@.dom());
        self.slots.len()
    }

    /// Whether no task has a slot.
    pub fn is_empty(&self) -> (empty: bool)
        ensures
            empty == (self.deep_view().slots.dom() == Set::<Seq<char>>::empty()),
    {
        let count: usize = self.len();
        proof {
            if count == 0 {
                assert(self.deep_view().slots.dom() =~= Set::<Seq<char>>::empty());
            }
        }
        count == 0
    }

    /// Whether another receiver for `task_id` can be counted.
    pub fn can_subscribe(&self, task_id: &str) -> (possible: bool)
        ensures
            possible == can_count(self.deep_view(), task_id@),
    {
        let room = match self.slots.lookup(task_id) {
            Some(slot) => slot.receivers < u64::MAX,
            None => true,
        };
        room && self.generations < u64::MAX
    }

    /// Makes a receiver for `task_id`, and a slot where there is none.
    pub fn subscribe(&mut self, task_id: &str) -> (subscription: Subscription)
        requires
            can_count(old(self).deep_view(), task_id@),
        ensures
            final(self).deep_view() == subscribed(old(self).deep_view(), task_id@),
            subscription.task_id@ == task_id@,
            subscription.generation == final(self).deep_view().slots[task_id@].generation,
            subscription.seen == final(self).deep_view().slots[task_id@].version,
    {
        let slot = match self.slots.lookup(task_id) {
            Some(slot) => {
                let mut slot = slot.duplicate();
                slot.receivers = slot.receivers + 1;
                slot
            },
            None => {
                let generation: u64 = self.generations;
                self.generations = generation + 1;
                NotificationSlot { latest: None, receivers: 1, generation, version: 0 }
            },
        };
        let subscription = Subscription {
            task_id: task_id.to_owned(),
            generation: slot.generation,
            seen: slot.version,
        };
        self.slots.put(task_id.to_owned(), slot);
        subscription
    }

    /// Lets a receiver go.
    pub fn unsubscribe(&mut self, subscription: Subscription)
        ensures
            final(self).deep_view() == unsubscribed(
                old(self).deep_view(),
                subscription.task_id@,
                subscription.generation,
            ),
    {
        let slot = match self.slots.lookup(subscription.task_id.as_str()) {
            Some(slot) => {
                if slot.generation != subscription.generation || slot.receivers == 0 {
                    return ;
                }
                let mut slot = slot.duplicate();
                slot.receivers = slot.receivers - 1;
                slot
            },
            None => {
                return ;
            },
        };
        self.slots.put(subscription.task_id, slot);
    }

    /// The last update at a receiver's slot.
    pub fn current(&self, subscription: &Subscription) -> (update: Option<TaskStatusUpdate>)
        ensures
            update.deep_view() == if attached(
                self.deep_view(),
                subscription.task_id@,
                subscription.generation,
            ) {
                self.deep_view().slots[subscription.task_id@].latest
            } else {
                None
            },
    {
        match self.slots.lookup(subscription.task_id.as_str()) {
            Some(slot) => if slot.generation == subscription.generation {
                slot.latest.duplicate()
            } else {
                None
            },
            None => None,
        }
    }

    /// Looks for a new update at a receiver's slot, and notes that it was seen.
    pub fn poll(&self, subscription: &mut Subscription) -> (reading: Reading)
        ensures
            final(subscription).task_id@ == old(subscription).task_id@,
            final(subscription).generation == old(subscription).generation,
            (reading.deep_view(), final(subscription).seen) == read(
                self.deep_view(),
                old(subscription).task_id@,
                old(subscription).generation,
                old(subscription).seen,
            ),
    {
        match self.slots.lookup(subscription.task_id.as_str()) {
            Some(slot) => {
                if slot.generation != subscription.generation {
                    return Reading::Closed;
                }
                if slot.version == subscription.seen {
                    return Reading::Unchanged;
                }
                match &slot.latest {
                    Some(update) => {
                        subscription.seen = slot.version;
                        Reading::Update(update.duplicate())
                    },
                    None => Reading::Unchanged,
                }
            },
            None => Reading::Closed,
        }
    }

    /// Publishes a status update. A task without a slot is ignored, so that nothing is kept that no
    /// handle waits for.
    pub fn publish(&mut self, task: &Task)
        ensures
            final(self).deep_view() == published(old(self).deep_view(), task.deep_view()),
    {
        let update = TaskStatusUpdate::from_task(task);
        let terminal = convert_status(&update.status).is_terminal();
        let slot = match self.slots.lookup(task.task_id.as_str()) {
            Some(slot) => {
                let mut slot = slot.duplicate();
                slot.latest = Some(update);
                slot.version =
                if slot.version == u64::MAX {
                    0
                } else {
                    slot.version + 1
                };
                slot
            },
            None => {
                return ;
            },
        };
        if terminal && slot.receivers == 0 {
            let _ = self.slots.take(task.task_id.as_str());
        } else {
            self.slots.put(task.task_id.clone(), slot);
        }
    }

    /// Takes the slot of `task_id` away, as its handle is gone.
    pub fn release(&mut self, task_id: &str)
        ensures
            final(self).deep_view() == released(old(self).deep_view(), task_id@),
    {
        let _ = self.slots.take(task_id);
    }
}

/// Publishing never makes a slot and never touches the slot of another task, so that the registry
/// is bounded by what handles subscribed to.
pub proof fn publishing_never_grows_the_registry(registry: NotificationsView, task: TaskView)
    ensures
        published(registry, task).slots.dom().subset_of(registry.slots.dom()),
        forall|other: Seq<char>|
            other != task.task_id && #[trigger] registry.slots.contains_key(other) ==> published(
                registry,
                task,
            ).slots.contains_key(other) && published(registry, task).slots[other]
                == registry.slots[other],
{
}

/// A slot with a receiver survives every update, terminal ones included, and holds the last one.
pub proof fn subscribed_slots_get_every_update(
    registry: NotificationsView,
    task: TaskView,
)
    requires
        registry.slots.contains_key(task.task_id),
        registry.slots[task.task_id].receivers > 0,
    ensures
        published(registry, task).slots.contains_key(task.task_id),
        published(registry, task).slots[task.task_id].latest == Some(update_of(task)),
        published(registry, task).slots[task.task_id].receivers
            == registry.slots[task.task_id].receivers,
        published(registry, task).slots[task.task_id].version
            != registry.slots[task.task_id].version,
{
}

/// A receiver that comes and goes leaves the slots of all tasks as they were, but for the new slot
/// that it may have made.
pub proof fn subscribe_then_unsubscribe(registry: NotificationsView, task_id: Seq<char>)
    requires
        can_count(registry, task_id),
    ensures
        ({
            let during = subscribed(registry, task_id);
            let after = unsubscribed(during, task_id, during.slots[task_id].generation);
            if registry.slots.contains_key(task_id) {
                after == registry
            } else {
                &&& after.slots.remove(task_id) == registry.slots.remove(task_id)
                &&& after.slots[task_id].receivers == 0
                &&& after.slots[task_id].latest is None
            }
        }),
{
    let during = subscribed(registry, task_id);
    let after = unsubscribed(during, task_id, during.slots[task_id].generation);
    if registry.slots.contains_key(task_id) {
        assert(after.slots =~= registry.slots);
    } else {
        assert(after.slots.remove(task_id) =~= registry.slots.remove(task_id));
    }
}

/// A receiver gets a slot that holds nothing yet where there is none, of a generation of its own, and
/// else shares the slot with everything that it holds. Letting it go takes one receiver away, from
/// its own generation only.
pub proof fn receivers_share_their_slot(
    registry: NotificationsView,
    task_id: Seq<char>,
    generation: u64,
    other: Seq<char>,
)
    requires
        can_count(registry, task_id),
        other != task_id,
    ensures
        ({
            let during = subscribed(registry, task_id);
            let slot = during.slots[task_id];
            &&& during.slots.contains_key(task_id)
            &&& registry.slots.contains_key(task_id) ==> {
                &&& slot.receivers == registry.slots[task_id].receivers + 1
                &&& slot.latest == registry.slots[task_id].latest
                &&& slot.version == registry.slots[task_id].version
                &&& slot.generation == registry.slots[task_id].generation
                &&& during.generations == registry.generations
            }
            &&& !registry.slots.contains_key(task_id) ==> {
                &&& slot.receivers == 1 && slot.latest is None && slot.version == 0
                &&& slot.generation == registry.generations
                &&& during.generations == registry.generations + 1
            }
            &&& during.slots.contains_key(other) == registry.slots.contains_key(other)
            &&& registry.slots.contains_key(other) ==> during.slots[other] == registry.slots[other]
        }),
        attached(registry, task_id, generation) <==> registry.slots.contains_key(task_id)
            && registry.slots[task_id].generation == generation,
        ({
            let after = unsubscribed(registry, task_id, generation);
            &&& attached(registry, task_id, generation) && registry.slots[task_id].receivers > 0 ==> {
                &&& after.slots.contains_key(task_id)
                &&& after.slots[task_id].receivers == registry.slots[task_id].receivers - 1
                &&& after.slots[task_id].latest == registry.slots[task_id].latest
                &&& after.slots[task_id].version == registry.slots[task_id].version
                &&& after.slots[task_id].generation == generation
            }
            &&& !attached(registry, task_id, generation) ==> after == registry
            &&& after.slots.contains_key(other) == registry.slots.contains_key(other)
            &&& registry.slots.contains_key(other) ==> after.slots[other] == registry.slots[other]
            &&& after.generations == registry.generations
        }),
{
}

/// An update reaches the slot of its own task with the status, the message and the interval that the
/// server sent, as news; a slot without receivers is given up only by the end of its task, and a
/// task without a slot is ignored.
pub proof fn updates_reach_their_slot(registry: NotificationsView, task: TaskView)
    ensures
        !registry.slots.contains_key(task.task_id) ==> published(registry, task) == registry,
        registry.slots.contains_key(task.task_id) ==> {
            let before = registry.slots[task.task_id];
            let after = published(registry, task);
            let over = task.status is Completed || task.status is Failed || task.status
                is Cancelled;
            &&& after.slots.contains_key(task.task_id) <==> !(over && before.receivers == 0)
            &&& after.generations == registry.generations
            &&& after.slots.contains_key(task.task_id) ==> {
                let slot = after.slots[task.task_id];
                &&& slot.latest matches Some(update) && {
                    &&& update.status == task.status
                    &&& update.status_message == task.status_message
                    &&& update.poll_interval == task.poll_interval_ms
                }
                &&& slot.version != before.version
                &&& slot.receivers == before.receivers
                &&& slot.generation == before.generation
            }
        },
{
}

/// A receiver that is up to date finds the next update of its task as the server sent it, and finds
/// it once; a new receiver finds nothing. Once its slot is gone it finds that, and that alone.
pub proof fn updates_are_found_once(registry: NotificationsView, task: TaskView, seen: u64)
    requires
        registry.slots.contains_key(task.task_id),
        registry.slots[task.task_id].receivers > 0,
        registry.slots[task.task_id].version == seen,
    ensures
        ({
            let generation = registry.slots[task.task_id].generation;
            let (nothing, before) = read(registry, task.task_id, generation, seen);
            let told = published(registry, task);
            let (news, after) = read(told, task.task_id, generation, seen);
            &&& nothing is Unchanged && before == seen
            &&& news matches ReadingView::Update(update) && {
                &&& update.status == task.status
                &&& update.status_message == task.status_message
                &&& update.poll_interval == task.poll_interval_ms
            }
            &&& read(told, task.task_id, generation, after) == (ReadingView::Unchanged, after)
            &&& read(released(told, task.task_id), task.task_id, generation, seen) == (
                ReadingView::Closed,
                seen,
            )
        }),
{
}

/// Taking the slot of a task away takes away that slot and no other.
pub proof fn released_slots_are_gone(
    registry: NotificationsView,
    task_id: Seq<char>,
    other: Seq<char>,
)
    ensures
        !released(registry, task_id).slots.contains_key(task_id),
        other != task_id ==> released(registry, task_id).slots.contains_key(other)
            == registry.slots.contains_key(other),
        other != task_id && registry.slots.contains_key(other) ==> released(
            registry,
            task_id,
        ).slots[other] == registry.slots[other],
        released(registry, task_id).generations == registry.generations,
{
}

/// Another receiver can be counted exactly where the slot of the task, if there is one, has room,
/// and another generation can be numbered.
pub proof fn receivers_are_counted_while_there_is_room(
    registry: NotificationsView,
    task_id: Seq<char>,
)
    ensures
        can_count(registry, task_id) <==> registry.generations < u64::MAX && (
        !registry.slots.contains_key(task_id) || registry.slots[task_id].receivers < u64::MAX),
{
}

} // verus!

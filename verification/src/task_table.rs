//! The working set of deferred tasks that are being driven.

use vstd::prelude::*;
use vstd::string::*;

use crate::drive::{drive_task, new_drive, PendingTask, TaskDrive, TaskDriveConfig};
use crate::duplicate::Duplicate;
use crate::duration::Duration;
use crate::result::{ToolContext, ToolContextView};
use crate::string_map::{lists_exactly, StringMap};

verus! {

/// What is kept of a task while it is being driven.
#[derive(Debug)]
pub struct TaskEntry {
    /// Why the task has to be cancelled, where that was asked for.
    pub cancel: Option<String>,
    /// The context of the call, for the hook at the end.
    pub context: ToolContext,
}

/// The model of a [`TaskEntry`].
#[verifier::ext_equal]
pub struct TaskEntryView {
    /// Why the task has to be cancelled, where that was asked for.
    pub cancel: Option<Seq<char>>,
    /// The context of the call, for the hook at the end.
    pub context: ToolContextView,
}

impl DeepView for TaskEntry {
    type V = TaskEntryView;

    open spec fn deep_view(&self) -> TaskEntryView {
        TaskEntryView {
            cancel: self.cancel.deep_view(),
            context: self.context.deep_view(),
        }
    }
}

impl Duplicate for TaskEntry {
    fn duplicate(&self) -> (copy: Self) {
        TaskEntry {
            cancel: self.cancel.duplicate(),
            context: self.context.duplicate(),
        }
    }
}

impl Clone for TaskEntry {
    fn clone(&self) -> (copy: Self)
        ensures
            copy.deep_view() == self.deep_view(),
    {
        self.duplicate()
    }
}

/// The tasks that are being driven.
pub struct TaskTable {
    entries: StringMap<TaskEntry>,
    drivers: usize,
}

/// The model of a [`TaskTable`].
#[verifier::ext_equal]
pub struct TaskTableView {
    /// What is kept of each task, by the internal id of its call.
    pub entries: Map<Seq<char>, TaskEntryView>,
    /// How many drivers have not come to their end.
    pub drivers: nat,
}

impl DeepView for TaskTable {
    type V = TaskTableView;

    closed spec fn deep_view(&self) -> TaskTableView {
        TaskTableView { entries: self.entries.deep_view(), drivers: self.drivers as nat }
    }
}

/// The table without tasks.
pub open spec fn empty_table() -> TaskTableView {
    TaskTableView { entries: Map::empty(), drivers: 0 }
}

/// A table after a task was launched.
pub open spec fn launched(
    table: TaskTableView,
    internal_call_id: Seq<char>,
    context: ToolContextView,
) -> TaskTableView {
    TaskTableView {
        entries: table.entries.insert(internal_call_id, TaskEntryView { cancel: None, context }),
        drivers: table.drivers + 1,
    }
}

/// A table after a task was forgotten, and the context of its call.
pub open spec fn finished(table: TaskTableView, internal_call_id: Seq<char>) -> (
    TaskTableView,
    Option<ToolContextView>,
) {
    (
        TaskTableView { entries: table.entries.remove(internal_call_id), ..table },
        if table.entries.contains_key(internal_call_id) {
            Some(table.entries[internal_call_id].context)
        } else {
            None
        },
    )
}

/// A table after one task was asked to stop.
pub open spec fn cancelled_one(
    table: TaskTableView,
    internal_call_id: Seq<char>,
    reason: Seq<char>,
) -> TaskTableView {
    if table.entries.contains_key(internal_call_id) {
        TaskTableView {
            entries: table.entries.insert(
                internal_call_id,
                TaskEntryView {
                    cancel: Some(reason),
                    ..table.entries[internal_call_id]
                },
            ),
            ..table
        }
    } else {
        table
    }
}

/// The entries of a table, all asked to stop.
pub open spec fn all_cancelled(
    entries: Map<Seq<char>, TaskEntryView>,
    reason: Seq<char>,
) -> Map<Seq<char>, TaskEntryView> {
    entries.map_values(
        |entry: TaskEntryView| TaskEntryView { cancel: Some(reason), ..entry },
    )
}

impl TaskTable {
    /// A table without tasks.
    pub fn new() -> (table: TaskTable)
        ensures
            table.deep_view() == empty_table(),
    {
        let table = TaskTable { entries: StringMap::new(), drivers: 0 };
        assert(table.entries.deep_view() =~= Map::<Seq<char>, TaskEntryView>::empty());
        table
    }

    /// Whether no task is being driven.
    pub fn is_empty(&self) -> (empty: bool)
        ensures
            empty == (self.deep_view().drivers == 0),
    {
        self.drivers == 0
    }

    /// Whether a live driver exists for `internal_call_id`.
    pub fn is_live(&self, internal_call_id: &str) -> (live: bool)
        ensures
            live == self.deep_view().entries.contains_key(internal_call_id@),
    {
        self.entries.contains_key(internal_call_id)
    }

    /// Whether another driver can be counted.
    pub fn can_launch(&self) -> (possible: bool)
        ensures
            possible == (self.deep_view().drivers < usize::MAX),
    {
        self.drivers < usize::MAX
    }

    /// Starts driving `pending`, whose handle suggests `poll_hint`. The deadline of `config` runs
    /// from now on.
    pub fn launch(
        &mut self,
        pending: &PendingTask,
        poll_hint: Option<Duration>,
        config: TaskDriveConfig,
        context: ToolContext,
    ) -> (drive: TaskDrive)
        requires
            old(self).deep_view().drivers < usize::MAX,
        ensures
            drive.deep_view() == new_drive(
                pending.deep_view(),
                poll_hint.deep_view(),
                config.poll_fallback.deep_view(),
            ),
            final(self).deep_view() == launched(
                old(self).deep_view(),
                pending.internal_call_id@,
                context.deep_view(),
            ),
    {
        self.drivers = self.drivers + 1;
        self.entries.put(pending.internal_call_id.clone(), TaskEntry { cancel: None, context });
        drive_task(pending, poll_hint, config.poll_fallback)
    }

    /// Notes that one driver came to its end.
    pub fn driver_ended(&mut self)
        requires
            old(self).deep_view().drivers > 0,
        ensures
            final(self).deep_view() == (TaskTableView {
                drivers: (old(self).deep_view().drivers - 1) as nat,
                ..old(self).deep_view()
            }),
    {
        self.drivers = self.drivers - 1;
    }

    /// Why the task has to be cancelled, where that was asked for.
    pub fn cancel_reason(&self, internal_call_id: &str) -> (reason: Option<String>)
        ensures
            reason.deep_view() == if self.deep_view().entries.contains_key(internal_call_id@) {
                self.deep_view().entries[internal_call_id@].cancel
            } else {
                None
            },
    {
        match self.entries.lookup(internal_call_id) {
            Some(entry) => entry.cancel.duplicate(),
            None => None,
        }
    }

    /// Asks one task to stop; its driver resolves it as cancelled, for `reason`.
    pub fn cancel_one(&mut self, internal_call_id: &str, reason: String)
        ensures
            final(self).deep_view() == cancelled_one(
                old(self).deep_view(),
                internal_call_id@,
                reason@,
            ),
    {
        let context = match self.entries.lookup(internal_call_id) {
            Some(entry) => entry.context.duplicate(),
            None => {
                return ;
            },
        };
        self.entries.put(
            internal_call_id.to_owned(),
            TaskEntry { cancel: Some(reason), context },
        );
    }

    /// Forgets a task that resolved; gives back the context of its call.
    pub fn finish(&mut self, internal_call_id: &str) -> (context: Option<ToolContext>)
        ensures
            (final(self).deep_view(), context.deep_view()) == finished(
                old(self).deep_view(),
                internal_call_id@,
            ),
    {
        match self.entries.take(internal_call_id) {
            Some(entry) => Some(entry.context),
            None => None,
        }
    }

    /// Lets go of every task without asking for its cancellation: the backends keep running them.
    pub fn detach(&mut self)
        ensures
            final(self).deep_view() == empty_table(),
    {
        self.drivers = 0;
        self.entries.clear();
        assert(self.entries.deep_view() =~= Map::<Seq<char>, TaskEntryView>::empty());
    }

    /// Asks every task to stop. `false` means that no driver is left and nothing was done;
    /// otherwise the drivers are to be drained, for a bounded time, before
    /// [`TaskTable::end_graceful_cancel`].
    pub fn graceful_cancel(&mut self, reason: &str) -> (drain: bool)
        ensures
            drain == (old(self).deep_view().drivers > 0),
            !drain ==> final(self).deep_view() == old(self).deep_view(),
            drain ==> final(self).deep_view() == (TaskTableView {
                entries: all_cancelled(old(self).deep_view().entries, reason@),
                ..old(self).deep_view()
            }),
    {
        if self.drivers == 0 {
            return false;
        }
        let ghost start = self.deep_view();
        let keys = self.entries.key_list();
        let ghost start_map = self.entries@;
        let mut i: usize = 0;
        while i < keys.len()
            invariant
                i <= keys.len(),
                start.entries.dom() == start_map.dom(),
                start == old(self).deep_view(),
                lists_exactly(keys.deep_view(), start_map.dom()),
                self.drivers as nat == start.drivers,
                self.deep_view().entries.dom() == start.entries.dom(),
                forall|key: Seq<char>| #[trigger]
                    start.entries.contains_key(key) ==> self.deep_view().entries[key] == if exists|
                        j: int,
                    |
                        0 <= j < i && #[trigger] keys.deep_view()[j] == key {
                        TaskEntryView { cancel: Some(reason@), ..start.entries[key] }
                    } else {
                        start.entries[key]
                    },
            decreases keys.len() - i,
        {
            let ghost before = self.deep_view();
            let ghost here = keys.deep_view()[i as int];
            assert(keys.deep_view().contains(here));
            assert(start.entries.contains_key(here));
            self.cancel_one(keys[i].as_str(), reason.to_owned());
            proof {
                assert(here == keys@[i as int]@);
                assert(self.deep_view().entries.dom() =~= start.entries.dom());
                assert forall|key: Seq<char>| #[trigger]
                    start.entries.contains_key(key) implies self.deep_view().entries[key] == (
                if exists|j: int| 0 <= j < i + 1 && #[trigger] keys.deep_view()[j] == key {
                    TaskEntryView { cancel: Some(reason@), ..start.entries[key] }
                } else {
                    start.entries[key]
                }) by {
                    if key == here {
                        assert(keys.deep_view()[i as int] == key);
                    } else if exists|j: int| 0 <= j < i + 1 && #[trigger] keys.deep_view()[j] == key {
                        let j = choose|j: int|
                            0 <= j < i + 1 && #[trigger] keys.deep_view()[j] == key;
                        assert(j < i);
                    }
                }
            }
            i = i + 1;
        }
        proof {
            let goal = all_cancelled(start.entries, reason@);
            assert forall|key: Seq<char>| #[trigger]
                start.entries.contains_key(key) implies self.deep_view().entries[key] == goal[key] by {
                assert(keys.deep_view().contains(key));
                let j = choose|j: int|
                    0 <= j < keys.deep_view().len() && keys.deep_view()[j] == key;
                assert(keys.deep_view()[j] == key);
            }
            assert(self.deep_view().entries =~= goal);
        }
        true
    }

    /// Forgets every task after the drivers were drained, or after the time for that ran out: a
    /// driver that did not come to its end is dropped, which abandons its task locally.
    pub fn end_graceful_cancel(&mut self)
        ensures
            final(self).deep_view() == empty_table(),
    {
        self.detach();
    }
}

/// A launched task is live until it is finished, and finishing it leaves every other task alone.
pub proof fn launch_then_finish(
    table: TaskTableView,
    internal_call_id: Seq<char>,
    context: ToolContextView,
)
    ensures
        ({
            let after = launched(table, internal_call_id, context);
            &&& after.entries.contains_key(internal_call_id)
            &&& after.entries[internal_call_id].cancel is None
            &&& after.entries.remove(internal_call_id) == table.entries.remove(internal_call_id)
        }),
{
    assert(launched(table, internal_call_id, context).entries.remove(internal_call_id)
        =~= table.entries.remove(internal_call_id));
}

/// Asking one task to stop changes nothing but the reason of that task, and never makes a task
/// live.
pub proof fn cancel_one_touches_one(
    table: TaskTableView,
    internal_call_id: Seq<char>,
    reason: Seq<char>,
    other: Seq<char>,
)
    requires
        other != internal_call_id,
    ensures
        ({
            let after = cancelled_one(table, internal_call_id, reason);
            &&& after.drivers == table.drivers
            &&& after.entries.dom() == table.entries.dom()
            &&& table.entries.contains_key(other) ==> after.entries[other] == table.entries[other]
            &&& table.entries.contains_key(internal_call_id)
                ==> after.entries[internal_call_id].cancel == Some(reason)
                && after.entries[internal_call_id].context
                == table.entries[internal_call_id].context
        }),
{
    assert(cancelled_one(table, internal_call_id, reason).entries.dom()
        =~= table.entries.dom());
}

/// A graceful cancellation reaches every live task.
pub proof fn graceful_cancel_reaches_all(
    entries: Map<Seq<char>, TaskEntryView>,
    reason: Seq<char>,
    internal_call_id: Seq<char>,
)
    ensures
        all_cancelled(entries, reason).contains_key(internal_call_id) == entries.contains_key(
            internal_call_id,
        ),
        entries.contains_key(internal_call_id) ==> all_cancelled(
            entries,
            reason,
        )[internal_call_id].cancel == Some(reason),
{
}

/// A launched task is live with the context of its call, has not been asked to stop, and is one
/// driver more; every other task stays as it was.
pub proof fn launched_tasks_are_live(
    table: TaskTableView,
    internal_call_id: Seq<char>,
    context: ToolContextView,
    other: Seq<char>,
)
    ensures
        ({
            let after = launched(table, internal_call_id, context);
            &&& after.entries.contains_key(internal_call_id)
            &&& after.entries[internal_call_id].context == context
            &&& after.entries[internal_call_id].cancel is None
            &&& after.drivers == table.drivers + 1
            &&& other != internal_call_id ==> after.entries.contains_key(other)
                == table.entries.contains_key(other)
            &&& other != internal_call_id && table.entries.contains_key(other)
                ==> after.entries[other] == table.entries[other]
        }),
        empty_table().drivers == 0,
        !empty_table().entries.contains_key(other),
{
}

/// A task that is asked to stop keeps its context and gets the reason; a task that is not live is
/// not made live by it. Asking all tasks is asking each of them.
pub proof fn reasons_reach_the_tasks_they_are_for(
    table: TaskTableView,
    internal_call_id: Seq<char>,
    reason: Seq<char>,
)
    ensures
        ({
            let after = cancelled_one(table, internal_call_id, reason);
            &&& !table.entries.contains_key(internal_call_id) ==> after == table
            &&& table.entries.contains_key(internal_call_id)
                ==> after.entries[internal_call_id].cancel == Some(reason)
                && after.entries[internal_call_id].context
                == table.entries[internal_call_id].context
            &&& all_cancelled(table.entries, reason).contains_key(internal_call_id)
                == table.entries.contains_key(internal_call_id)
            &&& table.entries.contains_key(internal_call_id) ==> all_cancelled(
                table.entries,
                reason,
            )[internal_call_id] == after.entries[internal_call_id]
        }),
{
}

/// A task gives the context of its call back when it is forgotten, once, whether it was asked to
/// stop or not; every other task and all drivers stay as they were.
pub proof fn contexts_come_back_once(
    table: TaskTableView,
    internal_call_id: Seq<char>,
    context: ToolContextView,
    reason: Seq<char>,
    other: Seq<char>,
)
    requires
        other != internal_call_id,
    ensures
        ({
            let during = launched(table, internal_call_id, context);
            let stopped = cancelled_one(during, internal_call_id, reason);
            let (after, back) = finished(during, internal_call_id);
            &&& back == Some(context)
            &&& finished(stopped, internal_call_id).1 == Some(context)
            &&& finished(after, internal_call_id).1 is None
            &&& !after.entries.contains_key(internal_call_id)
            &&& after.drivers == during.drivers
            &&& after.entries.contains_key(other) == table.entries.contains_key(other)
            &&& table.entries.contains_key(other) ==> after.entries[other] == table.entries[other]
        }),
{
}

} // verus!

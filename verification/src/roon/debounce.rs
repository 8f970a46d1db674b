//! The settle table: for each zone at most one delayed broadcast that is
//! still waiting for its deadline.

use vstd::prelude::*;
use vstd::string::*;

use crate::text::str_eq;

verus! {

/// How long a reported stop waits before it is published, in milliseconds.
pub const STOP_BROADCAST_DELAY_MS: u64 = 500;

/// How long an update of a playing premium zone waits for the device to
/// report the new format, in milliseconds.
pub const DCS_UPDATE_DELAY_MS: u64 = 200;

/// Why a broadcast is being delayed.
#[derive(Clone, Copy, Debug, PartialEq, Eq, Structural)]
pub enum SettleKind {
    /// A zone reported that it stopped.
    StopSettle,
    /// A premium zone started to play.
    FormatSettle,
}

/// A delayed broadcast that waits for its deadline.
#[derive(Debug, PartialEq, Eq)]
pub struct PendingTask {
    pub zone_id: String,
    pub kind: SettleKind,
    pub deadline: u64,
}

pub struct PendingView {
    pub zone_id: Seq<char>,
    pub kind: SettleKind,
    pub deadline: u64,
}

impl View for PendingTask {
    type V = PendingView;

    open spec fn view(&self) -> PendingView {
        PendingView { zone_id: self.zone_id@, kind: self.kind, deadline: self.deadline }
    }
}

impl DeepView for PendingTask {
    type V = PendingView;

    open spec fn deep_view(&self) -> PendingView {
        self@
    }
}

impl Clone for PendingTask {
    fn clone(&self) -> (copy: Self)
        ensures
            copy@ == self@,
    {
        PendingTask { zone_id: self.zone_id.clone(), kind: self.kind, deadline: self.deadline }
    }
}

/// The moment `delay` milliseconds after `now`, or the last moment there
/// is when that would lie beyond it.
pub open spec fn deadline_after(now: u64, delay: u64) -> u64 {
    if now + delay > u64::MAX {
        u64::MAX
    } else {
        (now + delay) as u64
    }
}

/// The moment `delay` milliseconds after `now`.
pub fn deadline(now: u64, delay: u64) -> (at: u64)
    ensures
        at == deadline_after(now, delay),
{
    if now > u64::MAX - delay {
        u64::MAX
    } else {
        now + delay
    }
}

/// Some task waits for the zone `id`.
pub open spec fn has_task(tasks: Seq<PendingView>, id: Seq<char>) -> bool {
    exists|i: int| 0 <= i < tasks.len() && (#[trigger] tasks[i]).zone_id == id
}

/// The place of a task of zone `id`, when there is one.
pub open spec fn task_position(tasks: Seq<PendingView>, id: Seq<char>) -> int {
    choose|i: int| 0 <= i < tasks.len() && (#[trigger] tasks[i]).zone_id == id
}

/// The task that waits for the zone `id`.
pub open spec fn task_of(tasks: Seq<PendingView>, id: Seq<char>) -> Option<PendingView> {
    if has_task(tasks, id) {
        Some(tasks[task_position(tasks, id)])
    } else {
        None
    }
}

/// The kind of the task that waits for the zone `id`.
pub open spec fn kind_of(tasks: Seq<PendingView>, id: Seq<char>) -> Option<SettleKind> {
    match task_of(tasks, id) {
        Some(task) => Some(task.kind),
        None => None,
    }
}

/// No zone has two tasks.
pub open spec fn distinct_tasks(tasks: Seq<PendingView>) -> bool {
    forall|i: int, j: int|
        0 <= i < j < tasks.len() ==> (#[trigger] tasks[i]).zone_id != (#[trigger] tasks[j]).zone_id
}

/// The table without the task of zone `id`.
pub open spec fn cancel_task(tasks: Seq<PendingView>, id: Seq<char>) -> Seq<PendingView> {
    if has_task(tasks, id) {
        tasks.remove(task_position(tasks, id))
    } else {
        tasks
    }
}

/// The table with `task` in place of whatever waited for its zone.
pub open spec fn schedule_task(tasks: Seq<PendingView>, task: PendingView) -> Seq<PendingView> {
    cancel_task(tasks, task.zone_id).push(task)
}

/// The tasks whose deadline has come at `now`, in table order.
pub open spec fn tasks_due(tasks: Seq<PendingView>, now: u64) -> Seq<PendingView>
    decreases tasks.len(),
{
    if tasks.len() == 0 {
        Seq::empty()
    } else if tasks.last().deadline <= now {
        tasks_due(tasks.drop_last(), now).push(tasks.last())
    } else {
        tasks_due(tasks.drop_last(), now)
    }
}

/// The tasks whose deadline lies after `now`, in table order.
pub open spec fn tasks_waiting(tasks: Seq<PendingView>, now: u64) -> Seq<PendingView>
    decreases tasks.len(),
{
    if tasks.len() == 0 {
        Seq::empty()
    } else if tasks.last().deadline > now {
        tasks_waiting(tasks.drop_last(), now).push(tasks.last())
    } else {
        tasks_waiting(tasks.drop_last(), now)
    }
}

/// With one task per zone, a task's zone leads back to its place.
pub proof fn lemma_task_at(tasks: Seq<PendingView>, at: int)
    requires
        distinct_tasks(tasks),
        0 <= at < tasks.len(),
    ensures
        has_task(tasks, tasks[at].zone_id),
        task_position(tasks, tasks[at].zone_id) == at,
        task_of(tasks, tasks[at].zone_id) == Some(tasks[at]),
{
    let id = tasks[at].zone_id;
    let found = task_position(tasks, id);
    assert(0 <= found < tasks.len() && tasks[found].zone_id == id);
    if found < at {
        assert(tasks[found].zone_id != tasks[at].zone_id);
    } else if at < found {
        assert(tasks[at].zone_id != tasks[found].zone_id);
    }
}

/// Cancelling removes the zone's task and touches no other zone's.
pub proof fn lemma_cancel(tasks: Seq<PendingView>, id: Seq<char>)
    requires
        distinct_tasks(tasks),
    ensures
        distinct_tasks(cancel_task(tasks, id)),
        !has_task(cancel_task(tasks, id), id),
        forall|other: Seq<char>|
            other != id ==> #[trigger] task_of(cancel_task(tasks, id), other) == task_of(
                tasks,
                other,
            ),
{
    let after = cancel_task(tasks, id);
    if has_task(tasks, id) {
        let at = task_position(tasks, id);
        assert forall|i: int, j: int| 0 <= i < j < after.len() implies (#[trigger] after[i]).zone_id
            != (#[trigger] after[j]).zone_id by {
            let oi = if i < at { i } else { i + 1 };
            let oj = if j < at { j } else { j + 1 };
            assert(tasks[oi].zone_id != tasks[oj].zone_id);
        }
        assert forall|i: int| 0 <= i < after.len() implies (#[trigger] after[i]).zone_id != id by {
            let oi = if i < at { i } else { i + 1 };
            if oi < at {
                assert(tasks[oi].zone_id != tasks[at].zone_id);
            } else {
                assert(tasks[at].zone_id != tasks[oi].zone_id);
            }
        }
        assert forall|other: Seq<char>| other != id implies #[trigger] task_of(after, other)
            == task_of(tasks, other) by {
            if has_task(tasks, other) {
                let o = task_position(tasks, other);
                let n = if o < at { o } else { o - 1 };
                assert(after[n] == tasks[o]);
                lemma_task_at(after, n);
            } else if has_task(after, other) {
                let n = task_position(after, other);
                let o = if n < at { n } else { n + 1 };
                assert(tasks[o].zone_id == other);
            }
        }
    }
}

/// Scheduling puts the task in the zone's slot and touches no other zone's.
pub proof fn lemma_schedule(tasks: Seq<PendingView>, task: PendingView)
    requires
        distinct_tasks(tasks),
    ensures
        distinct_tasks(schedule_task(tasks, task)),
        task_of(schedule_task(tasks, task), task.zone_id) == Some(task),
        forall|other: Seq<char>|
            other != task.zone_id ==> #[trigger] task_of(schedule_task(tasks, task), other)
                == task_of(tasks, other),
{
    let cleared = cancel_task(tasks, task.zone_id);
    let after = schedule_task(tasks, task);
    lemma_cancel(tasks, task.zone_id);
    assert forall|i: int, j: int| 0 <= i < j < after.len() implies (#[trigger] after[i]).zone_id
        != (#[trigger] after[j]).zone_id by {
        if j < cleared.len() {
            assert(cleared[i].zone_id != cleared[j].zone_id);
        } else {
            assert(cleared[i].zone_id != task.zone_id);
        }
    }
    assert(after[cleared.len() as int] == task);
    lemma_task_at(after, cleared.len() as int);
    assert forall|other: Seq<char>| other != task.zone_id implies #[trigger] task_of(after, other)
        == task_of(tasks, other) by {
        assert(task_of(cleared, other) == task_of(tasks, other));
        if has_task(cleared, other) {
            let o = task_position(cleared, other);
            assert(after[o] == cleared[o]);
            lemma_task_at(after, o);
            assert(task_of(after, other) == Some(cleared[o]));
        } else if has_task(after, other) {
            let n = task_position(after, other);
            if n == cleared.len() {
                assert(after[n] == task);
            }
            assert(n < cleared.len());
            assert(cleared[n].zone_id == other);
        }
    }
}

/// When no deadline has come, nothing is due and the table stays whole.
pub proof fn lemma_nothing_due(tasks: Seq<PendingView>, now: u64)
    requires
        forall|i: int| 0 <= i < tasks.len() ==> (#[trigger] tasks[i]).deadline > now,
    ensures
        tasks_due(tasks, now) == Seq::<PendingView>::empty(),
        tasks_waiting(tasks, now) == tasks,
    decreases tasks.len(),
{
    if tasks.len() > 0 {
        let rest = tasks.drop_last();
        assert forall|i: int| 0 <= i < rest.len() implies (#[trigger] rest[i]).deadline > now by {
            assert(rest[i] == tasks[i]);
        }
        lemma_nothing_due(rest, now);
        assert(tasks.last() == tasks[tasks.len() - 1]);
        assert(tasks_waiting(tasks, now) =~= tasks);
    } else {
        assert(tasks_waiting(tasks, now) =~= tasks);
    }
}

/// The per-zone table of delayed broadcasts.
#[derive(Debug)]
pub struct DebounceTable {
    tasks: Vec<PendingTask>,
}

impl View for DebounceTable {
    type V = Seq<PendingView>;

    closed spec fn view(&self) -> Seq<PendingView> {
        self.tasks.deep_view()
    }
}

impl DebounceTable {
    /// The table's invariant: at most one task per zone.
    pub open spec fn wf(&self) -> bool {
        distinct_tasks(self@)
    }

    /// An empty table.
    pub fn new() -> (table: Self)
        ensures
            table@ == Seq::<PendingView>::empty(),
            table.wf(),
    {
        let table = DebounceTable { tasks: Vec::new() };
        assert(table@ =~= Seq::<PendingView>::empty());
        table
    }

    /// The number of tasks that wait.
    pub fn len(&self) -> (n: usize)
        ensures
            n == self@.len(),
    {
        self.tasks.len()
    }

    fn position(&self, id: &str) -> (found: Option<usize>)
        requires
            self.wf(),
        ensures
            found is Some <==> has_task(self@, id@),
            found is Some ==> found->0 == task_position(self@, id@),
    {
        let mut i: usize = 0;
        while i < self.tasks.len()
            invariant
                i <= self.tasks.len(),
                self.wf(),
                forall|k: int| 0 <= k < i ==> (#[trigger] self@[k]).zone_id != id@,
            decreases self.tasks.len() - i,
        {
            if str_eq(self.tasks[i].zone_id.as_str(), id) {
                proof {
                    assert(self@[i as int].zone_id == id@);
                    lemma_task_at(self@, i as int);
                }
                return Some(i);
            }
            i += 1;
        }
        None
    }

    /// The kind of the task that waits for the zone `id`, if one does.
    pub fn kind(&self, id: &str) -> (kind: Option<SettleKind>)
        requires
            self.wf(),
        ensures
            kind == kind_of(self@, id@),
    {
        match self.position(id) {
            Some(at) => Some(self.tasks[at].kind),
            None => None,
        }
    }

    /// Cancels the task of the zone `id`; `true` when there was one.
    pub fn cancel(&mut self, id: &str) -> (cancelled: bool)
        requires
            old(self).wf(),
        ensures
            final(self).wf(),
            final(self)@ == cancel_task(old(self)@, id@),
            cancelled == has_task(old(self)@, id@),
    {
        let ghost before = self@;
        proof {
            lemma_cancel(before, id@);
        }
        match self.position(id) {
            Some(at) => {
                let _ = self.tasks.remove(at);
                assert(self@ =~= before.remove(at as int));
                true
            },
            None => false,
        }
    }

    /// Cancels whatever waits for the task's zone, then lets the task wait.
    pub fn schedule(&mut self, task: PendingTask)
        requires
            old(self).wf(),
        ensures
            final(self).wf(),
            final(self)@ == schedule_task(old(self)@, task@),
    {
        let ghost before = self@;
        proof {
            lemma_schedule(before, task@);
        }
        let _ = self.cancel(task.zone_id.as_str());
        let ghost cleared = self@;
        self.tasks.push(task);
        assert(self@ =~= cleared.push(task@));
    }

    /// Takes out the tasks whose deadline has come, in table order, and
    /// keeps the others.
    pub fn take_due(&mut self, now: u64) -> (due: Vec<PendingTask>)
        requires
            old(self).wf(),
        ensures
            final(self).wf(),
            due.deep_view() == tasks_due(old(self)@, now),
            final(self)@ == tasks_waiting(old(self)@, now),
    {
        let ghost before = self@;
        let mut due: Vec<PendingTask> = Vec::new();
        let mut waiting: Vec<PendingTask> = Vec::new();
        let mut i: usize = 0;
        while i < self.tasks.len()
            invariant
                i <= self.tasks.len(),
                self@ == before,
                due.deep_view() == tasks_due(before.take(i as int), now),
                waiting.deep_view() == tasks_waiting(before.take(i as int), now),
            decreases self.tasks.len() - i,
        {
            let task = self.tasks[i].clone();
            proof {
                assert(before.take(i + 1).drop_last() =~= before.take(i as int));
                assert(before.take(i + 1).last() == before[i as int]);
            }
            if task.deadline <= now {
                let ghost so_far = due.deep_view();
                due.push(task);
                assert(due.deep_view() =~= so_far.push(task@));
            } else {
                let ghost so_far = waiting.deep_view();
                waiting.push(task);
                assert(waiting.deep_view() =~= so_far.push(task@));
            }
            i += 1;
        }
        proof {
            assert(before.take(self.tasks.len() as int) =~= before);
            lemma_waiting_distinct(before, now);
        }
        self.tasks = waiting;
        due
    }

    /// Forgets every task.
    pub fn clear(&mut self)
        ensures
            final(self)@ == Seq::<PendingView>::empty(),
            final(self).wf(),
    {
        self.tasks.clear();
        assert(self@ =~= Seq::<PendingView>::empty());
    }

    /// The tasks that wait, in table order.
    pub fn tasks(&self) -> (tasks: &Vec<PendingTask>)
        ensures
            tasks.deep_view() == self@,
    {
        &self.tasks
    }
}

/// What waits is an order-preserving selection of the table, so it keeps
/// one task per zone, and each zone's task stays or goes by its deadline.
pub proof fn lemma_waiting_distinct(tasks: Seq<PendingView>, now: u64)
    requires
        distinct_tasks(tasks),
    ensures
        distinct_tasks(tasks_waiting(tasks, now)),
        forall|id: Seq<char>| #[trigger]
            task_of(tasks_waiting(tasks, now), id) == match task_of(tasks, id) {
                Some(task) => if task.deadline > now {
                    Some(task)
                } else {
                    None
                },
                None => None,
            },
    decreases tasks.len(),
{
    let waiting = tasks_waiting(tasks, now);
    if tasks.len() == 0 {
        assert forall|id: Seq<char>| #[trigger] task_of(waiting, id) == match task_of(tasks, id) {
            Some(task) => if task.deadline > now {
                Some(task)
            } else {
                None
            },
            None => None,
        } by {}
    } else {
        let rest = tasks.drop_last();
        let last = tasks.last();
        assert forall|i: int, j: int| 0 <= i < j < rest.len() implies (#[trigger] rest[i]).zone_id
            != (#[trigger] rest[j]).zone_id by {
            assert(tasks[i].zone_id != tasks[j].zone_id);
        }
        lemma_waiting_distinct(rest, now);
        let rest_waiting = tasks_waiting(rest, now);
        // No entry of the rest carries the last task's zone.
        assert forall|k: int| 0 <= k < rest.len() implies (#[trigger] rest[k]).zone_id
            != last.zone_id by {
            assert(tasks[k].zone_id != tasks[tasks.len() - 1].zone_id);
        }
        assert(!has_task(rest, last.zone_id));
        assert(task_of(rest_waiting, last.zone_id) is None);
        assert(!has_task(rest_waiting, last.zone_id));
        assert forall|i: int, j: int| 0 <= i < j < waiting.len() implies (
        #[trigger] waiting[i]).zone_id != (#[trigger] waiting[j]).zone_id by {
            if j < rest_waiting.len() {
                assert(rest_waiting[i].zone_id != rest_waiting[j].zone_id);
            } else {
                assert(rest_waiting[i].zone_id != last.zone_id);
            }
        }
        lemma_task_at(tasks, tasks.len() - 1);
        assert forall|id: Seq<char>| #[trigger] task_of(waiting, id) == match task_of(tasks, id) {
            Some(task) => if task.deadline > now {
                Some(task)
            } else {
                None
            },
            None => None,
        } by {
            if id == last.zone_id {
                assert(task_of(tasks, id) == Some(last));
                if last.deadline > now {
                    assert(waiting == rest_waiting.push(last));
                    assert(waiting[rest_waiting.len() as int] == last);
                    lemma_task_at(waiting, rest_waiting.len() as int);
                } else {
                    assert(waiting == rest_waiting);
                }
            } else {
                // The zone's task, if any, lies in the rest.
                if has_task(tasks, id) {
                    let o = task_position(tasks, id);
                    assert(o < rest.len());
                    assert(rest[o] == tasks[o]);
                    lemma_task_at(rest, o);
                } else if has_task(rest, id) {
                    let o = task_position(rest, id);
                    assert(tasks[o].zone_id == id);
                }
                assert(task_of(rest, id) == task_of(tasks, id));
                assert(task_of(rest_waiting, id) == match task_of(rest, id) {
                    Some(task) => if task.deadline > now {
                        Some(task)
                    } else {
                        None
                    },
                    None => None,
                });
                if last.deadline > now {
                    assert(waiting == rest_waiting.push(last));
                    if has_task(rest_waiting, id) {
                        let n = task_position(rest_waiting, id);
                        assert(waiting[n] == rest_waiting[n]);
                        lemma_task_at(waiting, n);
                        assert(task_of(waiting, id) == Some(rest_waiting[n]));
                    } else if has_task(waiting, id) {
                        let n = task_position(waiting, id);
                        if n == rest_waiting.len() {
                            assert(waiting[n] == last);
                        }
                        assert(n < rest_waiting.len());
                        assert(rest_waiting[n].zone_id == id);
                    }
                    assert(task_of(waiting, id) == task_of(rest_waiting, id));
                } else {
                    assert(waiting == rest_waiting);
                }
            }
        }
    }
}

} // verus!

//! The task header's lifecycle state: the five state bits and the reference
//! count, together with the transitions the scheduler, wakers and join
//! handle perform on them.
//!
//! In a running system the bits live in one atomic word modified by
//! compare-and-swap; here the word is a struct and each transition is a
//! function whose contract states exactly the one atomic step it models.
//! A serialized history of such steps is a `Seq<TaskOp>`, and the module
//! proves the lifecycle laws over all valid histories:
//!
//! * two successful poll starts are always separated by a poll end, so at
//!   most one thread holds the `RUNNING` bit at any moment;
//! * two successful poll starts are always separated by a wake (or a
//!   shutdown), so a task that returned `Pending` is polled again only after
//!   its waker fired;
//! * every transition requires a positive reference count, so the count
//!   reaches zero at most once, as the last event of a history;
//! * the count after a history is the initial count plus the increments
//!   minus the decrements, so balanced waker clone/drop pairs leave it
//!   unchanged.

use vstd::prelude::*;

verus! {

/// The task header's state: lifecycle bits and the reference count.
///
/// * `running`: a thread is currently polling the future.
/// * `complete`: the future returned ready; never cleared again.
/// * `notified`: a wakeup occurred; the task is in (or entering) the run
///   queue.
/// * `cancelled`: shutdown was requested; the next run drops the future.
/// * `join_interest`: a join handle still exists.
#[derive(Clone, Copy, PartialEq, Eq, Debug)]
pub struct TaskState {
    pub running: bool,
    pub complete: bool,
    pub notified: bool,
    pub cancelled: bool,
    pub join_interest: bool,
    pub refs: u64,
}

/// One atomic step on a task header, as recorded in a serialized history.
#[derive(Clone, Copy, PartialEq, Eq, Structural, Debug)]
pub enum TaskOp {
    /// A scheduler consumed the notification and acquired `RUNNING`.
    PollStart,
    /// The poll returned pending; `RUNNING` is released.
    PollPending,
    /// The poll returned ready (or the cancelled future was dropped);
    /// `RUNNING` is released and `COMPLETE` set.
    PollComplete,
    /// A waker fired.
    Wake,
    /// Cancellation was requested.
    Shutdown,
    /// A handle or waker was cloned.
    RefInc,
    /// A handle or waker was dropped.
    RefDec,
}

/// When a step may be taken. Every step is performed through some handle to
/// the task, so every step requires a positive reference count.
pub open spec fn op_enabled(s: TaskState, op: TaskOp) -> bool {
    &&& s.refs > 0
    &&& match op {
        TaskOp::PollStart => s.notified && !s.running && !s.complete,
        TaskOp::PollPending => s.running,
        TaskOp::PollComplete => s.running && !s.complete,
        TaskOp::Wake => true,
        TaskOp::Shutdown => true,
        TaskOp::RefInc => s.refs < u64::MAX,
        TaskOp::RefDec => true,
    }
}

/// Effect of a step on the header.
pub open spec fn op_step(s: TaskState, op: TaskOp) -> TaskState {
    match op {
        TaskOp::PollStart => TaskState { running: true, notified: false, ..s },
        TaskOp::PollPending => TaskState { running: false, ..s },
        TaskOp::PollComplete => TaskState { running: false, complete: true, ..s },
        TaskOp::Wake => if s.complete {
            s
        } else {
            TaskState { notified: true, ..s }
        },
        TaskOp::Shutdown => if s.complete {
            TaskState { cancelled: true, ..s }
        } else {
            TaskState { cancelled: true, notified: true, ..s }
        },
        TaskOp::RefInc => TaskState { refs: (s.refs + 1) as u64, ..s },
        TaskOp::RefDec => TaskState { refs: (s.refs - 1) as u64, ..s },
    }
}

/// The header after a history of steps.
pub open spec fn state_after(s: TaskState, tr: Seq<TaskOp>) -> TaskState
    decreases tr.len(),
{
    if tr.len() == 0 {
        s
    } else {
        state_after(op_step(s, tr[0]), tr.skip(1))
    }
}

/// A history is valid when every step is enabled in the state it runs from.
pub open spec fn valid_from(s: TaskState, tr: Seq<TaskOp>) -> bool
    decreases tr.len(),
{
    tr.len() == 0 || (op_enabled(s, tr[0]) && valid_from(op_step(s, tr[0]), tr.skip(1)))
}

/// Whether a step releases the `RUNNING` bit.
pub open spec fn releases_running(op: TaskOp) -> bool {
    op is PollPending || op is PollComplete
}

/// Whether a step sets the `NOTIFIED` bit.
pub open spec fn sets_notified(op: TaskOp) -> bool {
    op is Wake || op is Shutdown
}

/// While `RUNNING` is held and no step releases it, it stays held and no
/// poll can start.
proof fn lemma_running_persists(s: TaskState, tr: Seq<TaskOp>)
    requires
        valid_from(s, tr),
        s.running,
        forall|k: int| 0 <= k < tr.len() ==> !releases_running(tr[k]),
    ensures
        state_after(s, tr).running,
        forall|k: int| 0 <= k < tr.len() ==> !(tr[k] is PollStart),
    decreases tr.len(),
{
    if tr.len() > 0 {
        let s1 = op_step(s, tr[0]);
        assert(forall|k: int| 0 <= k < tr.skip(1).len() ==> tr.skip(1)[k] == tr[k + 1]);
        lemma_running_persists(s1, tr.skip(1));
        assert forall|k: int| 0 <= k < tr.len() implies !(tr[k] is PollStart) by {
            if k > 0 {
                assert(tr.skip(1)[k - 1] == tr[k]);
            }
        }
    }
}

/// While `NOTIFIED` is clear and no step sets it, it stays clear and no
/// poll can start.
proof fn lemma_notified_stays_clear(s: TaskState, tr: Seq<TaskOp>)
    requires
        valid_from(s, tr),
        !s.notified,
        forall|k: int| 0 <= k < tr.len() ==> !sets_notified(tr[k]),
    ensures
        !state_after(s, tr).notified,
        forall|k: int| 0 <= k < tr.len() ==> !(tr[k] is PollStart),
    decreases tr.len(),
{
    if tr.len() > 0 {
        let s1 = op_step(s, tr[0]);
        assert(forall|k: int| 0 <= k < tr.skip(1).len() ==> tr.skip(1)[k] == tr[k + 1]);
        lemma_notified_stays_clear(s1, tr.skip(1));
        assert forall|k: int| 0 <= k < tr.len() implies !(tr[k] is PollStart) by {
            if k > 0 {
                assert(tr.skip(1)[k - 1] == tr[k]);
            }
        }
    }
}

/// At most one thread holds the `RUNNING` bit at any moment: between any two
/// successful poll starts of a valid history stands a step that released the
/// bit, so a second thread can never acquire it while the first still polls.
pub proof fn lemma_running_exclusive(s: TaskState, tr: Seq<TaskOp>, i: int, j: int)
    requires
        valid_from(s, tr),
        0 <= i < j < tr.len(),
        tr[i] is PollStart,
        tr[j] is PollStart,
    ensures
        exists|k: int| i < k < j && releases_running(#[trigger] tr[k]),
    decreases i,
{
    assert(forall|k: int| 0 <= k < tr.skip(1).len() ==> tr.skip(1)[k] == tr[k + 1]);
    if i > 0 {
        lemma_running_exclusive(op_step(s, tr[0]), tr.skip(1), i - 1, j - 1);
        let k0 = choose|k: int| i - 1 < k < j - 1 && releases_running(tr.skip(1)[k]);
        assert(i < k0 + 1 < j && releases_running(tr[k0 + 1]));
    } else {
        if forall|k: int| i < k < j ==> !releases_running(#[trigger] tr[k]) {
            let s1 = op_step(s, tr[0]);
            let seg = tr.skip(1).take(j - 1);
            assert(forall|k: int| 0 <= k < seg.len() ==> seg[k] == tr[k + 1]);
            lemma_valid_take(s1, tr.skip(1), j - 1);
            lemma_running_persists(s1, seg);
            lemma_enabled_at(s1, tr.skip(1), j - 1);
            assert(state_after(s1, seg).running);
            assert(op_enabled(state_after(s1, seg), tr[j]));
            assert(false);
        }
    }
}

/// A task that returned pending is polled again only after a wake: between
/// any two successful poll starts of a valid history stands a step that set
/// `NOTIFIED` (a waker firing, or a shutdown request scheduling the final
/// run). A task whose waker never fires is never polled again.
pub proof fn lemma_wake_before_next_poll(s: TaskState, tr: Seq<TaskOp>, i: int, j: int)
    requires
        valid_from(s, tr),
        0 <= i < j < tr.len(),
        tr[i] is PollStart,
        tr[j] is PollStart,
    ensures
        exists|k: int| i < k < j && sets_notified(#[trigger] tr[k]),
    decreases i,
{
    assert(forall|k: int| 0 <= k < tr.skip(1).len() ==> tr.skip(1)[k] == tr[k + 1]);
    if i > 0 {
        lemma_wake_before_next_poll(op_step(s, tr[0]), tr.skip(1), i - 1, j - 1);
        let k0 = choose|k: int| i - 1 < k < j - 1 && sets_notified(tr.skip(1)[k]);
        assert(i < k0 + 1 < j && sets_notified(tr[k0 + 1]));
    } else {
        if forall|k: int| i < k < j ==> !sets_notified(#[trigger] tr[k]) {
            let s1 = op_step(s, tr[0]);
            let seg = tr.skip(1).take(j - 1);
            assert(forall|k: int| 0 <= k < seg.len() ==> seg[k] == tr[k + 1]);
            lemma_valid_take(s1, tr.skip(1), j - 1);
            lemma_notified_stays_clear(s1, seg);
            lemma_enabled_at(s1, tr.skip(1), j - 1);
            assert(!state_after(s1, seg).notified);
            assert(op_enabled(state_after(s1, seg), tr[j]));
            assert(false);
        }
    }
}

/// A task that returned pending and is never cancelled is polled again only
/// after its waker has been woken: with no shutdown request in the history,
/// the step between two poll starts is a waker firing.
pub proof fn lemma_pending_needs_wake(s: TaskState, tr: Seq<TaskOp>, i: int, j: int)
    requires
        valid_from(s, tr),
        0 <= i < j < tr.len(),
        tr[i] is PollStart,
        tr[j] is PollStart,
        forall|k: int| 0 <= k < tr.len() ==> !(#[trigger] tr[k] is Shutdown),
    ensures
        exists|k: int| i < k < j && #[trigger] tr[k] is Wake,
{
    lemma_wake_before_next_poll(s, tr, i, j);
    let k0 = choose|k: int| i < k < j && sets_notified(#[trigger] tr[k]);
    assert(tr[k0] is Wake);
}

/// A prefix of a valid history is valid.
pub proof fn lemma_valid_take(s: TaskState, tr: Seq<TaskOp>, n: int)
    requires
        valid_from(s, tr),
        0 <= n <= tr.len(),
    ensures
        valid_from(s, tr.take(n)),
    decreases n,
{
    if n > 0 {
        assert(tr.take(n)[0] == tr[0]);
        assert(tr.take(n).skip(1) =~= tr.skip(1).take(n - 1));
        lemma_valid_take(op_step(s, tr[0]), tr.skip(1), n - 1);
    } else {
        assert(tr.take(0).len() == 0);
    }
}

/// In a valid history, each step is enabled in the state reached by the
/// steps before it.
pub proof fn lemma_enabled_at(s: TaskState, tr: Seq<TaskOp>, m: int)
    requires
        valid_from(s, tr),
        0 <= m < tr.len(),
    ensures
        op_enabled(state_after(s, tr.take(m)), tr[m]),
    decreases m,
{
    if m == 0 {
        assert(tr.take(0).len() == 0);
    } else {
        assert(tr.take(m)[0] == tr[0]);
        assert(tr.take(m).skip(1) =~= tr.skip(1).take(m - 1));
        lemma_enabled_at(op_step(s, tr[0]), tr.skip(1), m - 1);
    }
}

/// The reference count reaches zero at most once, as the very last event:
/// before every step of a valid history the count is positive, and in a
/// state with count zero no step is enabled, so nothing follows the
/// decrement that released the final reference.
pub proof fn lemma_refcount_zero_final(s: TaskState, tr: Seq<TaskOp>, m: int)
    requires
        valid_from(s, tr),
        0 <= m < tr.len(),
    ensures
        state_after(s, tr.take(m)).refs > 0,
{
    lemma_enabled_at(s, tr, m);
}

/// Once the reference count is zero nothing can happen to the task at all:
/// the allocation is released exactly once, by the decrement that reached
/// zero, and no later operation can observe or revive the task.
pub proof fn lemma_no_step_from_zero(s: TaskState, op: TaskOp)
    requires
        s.refs == 0,
    ensures
        !op_enabled(s, op),
{
}

/// Number of reference increments in a history.
pub open spec fn count_inc(tr: Seq<TaskOp>) -> nat
    decreases tr.len(),
{
    if tr.len() == 0 {
        0
    } else {
        (if tr[0] is RefInc { 1nat } else { 0nat }) + count_inc(tr.skip(1))
    }
}

/// Number of reference decrements in a history.
pub open spec fn count_dec(tr: Seq<TaskOp>) -> nat
    decreases tr.len(),
{
    if tr.len() == 0 {
        0
    } else {
        (if tr[0] is RefDec { 1nat } else { 0nat }) + count_dec(tr.skip(1))
    }
}

/// The reference count after a valid history is the initial count plus the
/// increments minus the decrements. In particular, waker clone/drop pairs
/// balance: a history with as many clones as drops leaves the count where
/// it started.
pub proof fn lemma_refcount_balance(s: TaskState, tr: Seq<TaskOp>)
    requires
        valid_from(s, tr),
    ensures
        state_after(s, tr).refs + count_dec(tr) == s.refs + count_inc(tr),
    decreases tr.len(),
{
    if tr.len() > 0 {
        lemma_refcount_balance(op_step(s, tr[0]), tr.skip(1));
    }
}

/// Waker clone/drop balance, stated directly: equal numbers of clones and
/// drops leave the reference count unchanged.
pub proof fn lemma_clone_drop_balance(s: TaskState, tr: Seq<TaskOp>)
    requires
        valid_from(s, tr),
        count_inc(tr) == count_dec(tr),
    ensures
        state_after(s, tr).refs == s.refs,
{
    lemma_refcount_balance(s, tr);
}

impl TaskState {
    /// The state of a freshly spawned task: notified (it sits in the run
    /// queue), with three references: the run queue's, the join handle's and
    /// the task's own waker factory's.
    pub open spec fn spawned() -> TaskState {
        TaskState {
            running: false,
            complete: false,
            notified: true,
            cancelled: false,
            join_interest: true,
            refs: 3,
        }
    }

    pub fn new_spawned() -> (s: TaskState)
        ensures
            s == TaskState::spawned(),
    {
        TaskState {
            running: false,
            complete: false,
            notified: true,
            cancelled: false,
            join_interest: true,
            refs: 3,
        }
    }

    /// Poll start: try to move `NOTIFIED` to `RUNNING`. Fails (and changes
    /// nothing) when the task is not notified, already running, or complete,
    /// so concurrent wakeups coalesce into one poll.
    pub fn transition_to_running(&mut self) -> (r: bool)
        requires
            old(self).refs > 0,
        ensures
            r == op_enabled(*old(self), TaskOp::PollStart),
            r ==> *final(self) == op_step(*old(self), TaskOp::PollStart),
            !r ==> *final(self) == *old(self),
    {
        if self.notified && !self.running && !self.complete {
            self.notified = false;
            self.running = true;
            true
        } else {
            false
        }
    }

    /// Poll end after the future returned pending: release `RUNNING`. The
    /// result says whether a wake arrived during the poll, in which case the
    /// caller must put the task straight back on the run queue.
    pub fn transition_to_idle(&mut self) -> (requeue: bool)
        requires
            old(self).refs > 0,
            old(self).running,
        ensures
            *final(self) == op_step(*old(self), TaskOp::PollPending),
            requeue == old(self).notified,
    {
        self.running = false;
        self.notified
    }

    /// Poll end after the future returned ready: set `COMPLETE`, release
    /// `RUNNING`. The result says whether the join handle's waker must be
    /// woken.
    pub fn transition_to_complete(&mut self) -> (join_wake: bool)
        requires
            old(self).refs > 0,
            old(self).running,
            !old(self).complete,
        ensures
            *final(self) == op_step(*old(self), TaskOp::PollComplete),
            join_wake == old(self).join_interest,
    {
        self.running = false;
        self.complete = true;
        self.join_interest
    }

    /// A waker fired: set `NOTIFIED` unless the task is complete. The result
    /// says whether the task was idle and must now be pushed onto the run
    /// queue, transferring one reference into the queue.
    pub fn transition_to_notified(&mut self) -> (schedule: bool)
        requires
            old(self).refs > 0,
        ensures
            *final(self) == op_step(*old(self), TaskOp::Wake),
            schedule == (!old(self).complete && !old(self).notified && !old(self).running),
    {
        if self.complete {
            false
        } else {
            let was_idle = !self.notified && !self.running;
            self.notified = true;
            was_idle
        }
    }

    /// Shutdown request: set `CANCELLED` and, unless the task is complete,
    /// `NOTIFIED`, so that the next run drops the future. The result says
    /// whether the caller must schedule the task for that final run.
    pub fn transition_to_cancelled(&mut self) -> (schedule: bool)
        requires
            old(self).refs > 0,
        ensures
            *final(self) == op_step(*old(self), TaskOp::Shutdown),
            schedule == (!old(self).complete && !old(self).notified && !old(self).running),
    {
        self.cancelled = true;
        if self.complete {
            false
        } else {
            let was_idle = !self.notified && !self.running;
            self.notified = true;
            was_idle
        }
    }

    /// Clone a reference to the task.
    pub fn ref_inc(&mut self)
        requires
            old(self).refs > 0,
            old(self).refs < u64::MAX,
        ensures
            *final(self) == op_step(*old(self), TaskOp::RefInc),
    {
        self.refs = self.refs + 1;
    }

    /// Drop a reference to the task. Returns true exactly when this was the
    /// final reference, in which case the caller deallocates and no further
    /// operation on the task is possible.
    pub fn ref_dec(&mut self) -> (zero: bool)
        requires
            old(self).refs > 0,
        ensures
            *final(self) == op_step(*old(self), TaskOp::RefDec),
            zero == (final(self).refs == 0),
    {
        self.refs = self.refs - 1;
        self.refs == 0
    }
}

} // verus!

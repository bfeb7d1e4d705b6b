//! The task harness: the reference-counted header, the core cell that holds
//! the future and later its output, the waker operations, and the join
//! handshake.
//!
//! A running system shares one heap allocation between the scheduler's run
//! queue, the join handle and outstanding wakers; here the allocation is a
//! plain struct and each holder's operation is a method whose contract is
//! stated over the header transitions of [`crate::task_state`]. Polling the
//! future itself is the embedder's job: [`Notified::run`] takes the poll's
//! outcome as an argument and performs the bookkeeping the harness owes for
//! either outcome.

use vstd::prelude::*;

use crate::task_state::{op_step, TaskOp, TaskState};

verus! {

/// What the core cell currently holds: the future (not yet complete); then,
/// on completion, a record for the join handle — the stored output, the
/// payload of a panic caught at the poll boundary, or a cancellation marker
/// — and finally nothing (the record taken or dropped). The cell moves
/// through these states in order and the future is pinned: it never moves
/// out before completion.
#[derive(Clone, Copy, PartialEq, Eq, Structural, Debug)]
pub enum CoreStage {
    HoldsFuture,
    HoldsOutput,
    HoldsPanic,
    HoldsCancelled,
    Cleared,
}

/// Outcome of one poll of the task's future, decided outside this crate.
/// A panic in the future is caught by the embedder at the poll boundary and
/// handed in as `Panicked`, so one misbehaving task cannot poison the loop.
#[derive(Clone, Copy, PartialEq, Eq, Structural, Debug)]
pub enum PollOutcome {
    Ready,
    Pending,
    Panicked,
}

/// What a run of a notified task did. Whenever a join handle is interested
/// in the completion, its waker (when parked) must be woken by the caller.
#[derive(Clone, Copy, PartialEq, Eq, Debug)]
pub enum RunResult {
    /// The future returned ready; its output is stored for the join handle.
    Completed { join_wake: Option<u64> },
    /// The future returned pending; the task parked itself.
    Idled,
    /// The future panicked; the payload is stored for the join handle.
    Panicked { join_wake: Option<u64> },
    /// The task was cancelled: the future was dropped without being polled
    /// and the task completed with a cancellation result.
    Cancelled { join_wake: Option<u64> },
}

/// Why a joined task produced no output: it was cancelled before its future
/// could finish, or its future panicked while being polled.
#[derive(Clone, Copy, PartialEq, Eq, Structural, Debug)]
pub enum JoinError {
    Cancelled,
    Panicked,
}

/// An owned handle to one task: the header plus the core cell and the join
/// handle's parked waker.
pub struct Task {
    pub state: TaskState,
    pub stage: CoreStage,
    pub join_waker: Option<u64>,
}

impl Task {
    /// Whether the core cell holds a completion record waiting for the join
    /// handle: an output, a panic payload, or a cancellation marker.
    pub open spec fn holds_record(self) -> bool {
        self.stage is HoldsOutput || self.stage is HoldsPanic || self.stage is HoldsCancelled
    }

    /// The structural invariant: the core cell holds the future exactly
    /// until completion, and a completion record is only held while a join
    /// handle is interested.
    pub open spec fn wf(self) -> bool {
        &&& (self.state.complete <==> !(self.stage is HoldsFuture))
        &&& (self.holds_record() ==> self.state.join_interest)
    }

    /// A freshly spawned task: notified, future in place, three references.
    pub fn spawn() -> (t: Task)
        ensures
            t.state == TaskState::spawned(),
            t.stage is HoldsFuture,
            t.join_waker is None,
            t.wf(),
    {
        Task {
            state: TaskState::new_spawned(),
            stage: CoreStage::HoldsFuture,
            join_waker: None,
        }
    }

    /// Read access to the header.
    pub fn header(&self) -> (h: &TaskState)
        ensures
            *h == self.state,
    {
        &self.state
    }

    /// Request cancellation: set `CANCELLED` and, unless the task already
    /// completed, `NOTIFIED`. Returns whether the caller must schedule the
    /// task so its next run drops the future.
    pub fn shutdown(&mut self) -> (schedule: bool)
        requires
            old(self).state.refs > 0,
        ensures
            final(self).state == op_step(old(self).state, TaskOp::Shutdown),
            final(self).stage == old(self).stage,
            final(self).join_waker == old(self).join_waker,
            schedule == (!old(self).state.complete && !old(self).state.notified
                && !old(self).state.running),
            old(self).wf() ==> final(self).wf(),
    {
        self.state.transition_to_cancelled()
    }

    /// A waker was cloned: one more reference.
    pub fn waker_clone(&mut self)
        requires
            old(self).state.refs > 0,
            old(self).state.refs < u64::MAX,
        ensures
            final(self).state == op_step(old(self).state, TaskOp::RefInc),
            final(self).stage == old(self).stage,
            final(self).join_waker == old(self).join_waker,
            old(self).wf() ==> final(self).wf(),
    {
        self.state.ref_inc()
    }

    /// A waker or handle was dropped: one reference less. Returns true
    /// exactly when this was the final reference and the caller must release
    /// the allocation.
    pub fn waker_drop(&mut self) -> (dealloc: bool)
        requires
            old(self).state.refs > 0,
        ensures
            final(self).state == op_step(old(self).state, TaskOp::RefDec),
            final(self).stage == old(self).stage,
            final(self).join_waker == old(self).join_waker,
            dealloc == (final(self).state.refs == 0),
            old(self).wf() ==> final(self).wf(),
    {
        self.state.ref_dec()
    }

    /// A waker fired without consuming its reference. Returns whether the
    /// task was idle and the caller must enqueue it (as a `Notified`),
    /// transferring one freshly cloned reference into the run queue.
    pub fn wake_by_ref(&mut self) -> (schedule: bool)
        requires
            old(self).state.refs > 0,
        ensures
            final(self).state == op_step(old(self).state, TaskOp::Wake),
            final(self).stage == old(self).stage,
            final(self).join_waker == old(self).join_waker,
            schedule == (!old(self).state.complete && !old(self).state.notified
                && !old(self).state.running),
            old(self).wf() ==> final(self).wf(),
    {
        self.state.transition_to_notified()
    }

    /// A waker fired and was consumed. When the wake schedules the task, the
    /// waker's reference transfers into the run queue and the count is
    /// untouched; otherwise the reference is dropped, and the second result
    /// tells the caller whether that released the final reference.
    pub fn wake(&mut self) -> (r: (bool, bool))
        requires
            old(self).state.refs > 0,
        ensures
            r.0 == (!old(self).state.complete && !old(self).state.notified
                && !old(self).state.running),
            r.0 ==> final(self).state == op_step(old(self).state, TaskOp::Wake),
            !r.0 ==> final(self).state == op_step(
                op_step(old(self).state, TaskOp::Wake),
                TaskOp::RefDec,
            ),
            r.1 == (final(self).state.refs == 0),
            final(self).stage == old(self).stage,
            final(self).join_waker == old(self).join_waker,
            old(self).wf() ==> final(self).wf(),
    {
        let schedule = self.state.transition_to_notified();
        if schedule {
            (true, false)
        } else {
            let zero = self.state.ref_dec();
            (schedule, zero)
        }
    }

    /// Join handle poll: when the task is complete, take the completion
    /// record (exactly once) and return ready — with the output, or with the
    /// error that says whether the task panicked or was cancelled; otherwise
    /// park the join handle's waker and return not-ready. The header
    /// guarantees a completed task stays complete, so a parked join waker is
    /// woken by the completing run.
    pub fn poll_join(&mut self, waker: u64) -> (r: crate::Async<Result<(), JoinError>>)
        requires
            old(self).state.refs > 0,
            old(self).state.join_interest,
            old(self).wf(),
            !(old(self).stage is Cleared),
        ensures
            final(self).state == old(self).state,
            old(self).state.complete ==> final(self).stage is Cleared && final(self).join_waker
                == old(self).join_waker && r == crate::Async::Ready(
                match old(self).stage {
                    CoreStage::HoldsPanic => Err::<(), JoinError>(JoinError::Panicked),
                    CoreStage::HoldsCancelled => Err::<(), JoinError>(JoinError::Cancelled),
                    _ => Ok::<(), JoinError>(()),
                },
            ),
            !old(self).state.complete ==> r == crate::Async::<Result<(), JoinError>>::NotReady
                && final(self).stage == old(self).stage
                && final(self).join_waker == Some(waker),
            final(self).wf(),
    {
        if self.state.complete {
            let record = self.stage;
            self.stage = CoreStage::Cleared;
            match record {
                CoreStage::HoldsPanic => crate::Async::Ready(Err(JoinError::Panicked)),
                CoreStage::HoldsCancelled => crate::Async::Ready(Err(JoinError::Cancelled)),
                _ => crate::Async::Ready(Ok(())),
            }
        } else {
            self.join_waker = Some(waker);
            crate::Async::NotReady
        }
    }

    /// Drop the join handle: clear `JOIN_INTEREST` (so the task drops its
    /// completion record instead of storing it), forget the parked join
    /// waker, and drop the handle's reference. Returns true exactly when
    /// that released the final reference.
    pub fn drop_join_handle(&mut self) -> (dealloc: bool)
        requires
            old(self).state.refs > 0,
        ensures
            final(self).state == (TaskState {
                join_interest: false,
                ..op_step(old(self).state, TaskOp::RefDec)
            }),
            final(self).stage == (if old(self).holds_record() {
                CoreStage::Cleared
            } else {
                old(self).stage
            }),
            final(self).join_waker is None,
            dealloc == (final(self).state.refs == 0),
            old(self).wf() ==> final(self).wf(),
    {
        self.state.join_interest = false;
        self.join_waker = None;
        if !matches!(self.stage, CoreStage::HoldsFuture) && !matches!(
            self.stage,
            CoreStage::Cleared,
        ) {
            self.stage = CoreStage::Cleared;
        }
        self.state.ref_dec()
    }
}

/// A task that has been notified and sits in the run queue. Holds the run
/// queue's reference to the task.
pub struct Notified(pub Task);

impl Notified {
    /// The queue only holds tasks whose notification was not yet consumed.
    pub open spec fn wf(self) -> bool {
        &&& self.0.wf()
        &&& self.0.state.refs > 0
        &&& self.0.state.notified
        &&& !self.0.state.running
        &&& !self.0.state.complete
    }

    /// Run the task once: consume the notification and acquire `RUNNING`;
    /// then, if cancellation was requested, drop the future and complete
    /// with a cancellation record; otherwise poll the future (the poll's
    /// outcome is `outcome`, with a panic caught at the poll boundary handed
    /// in as `Panicked`) and complete with the output, complete with the
    /// panic payload, or release `RUNNING` again. Returns the task (the
    /// queue's reference, which the scheduler then releases) and what
    /// happened; a returned join waker must be woken by the caller.
    pub fn run(self, outcome: PollOutcome) -> (r: (Task, RunResult))
        requires
            self.wf(),
        ensures
            r.0.wf(),
            r.0.state.refs == self.0.state.refs,
            self.0.state.cancelled ==> {
                &&& r.0.state == op_step(
                    op_step(self.0.state, TaskOp::PollStart),
                    TaskOp::PollComplete,
                )
                &&& r.0.stage == (if self.0.state.join_interest {
                    CoreStage::HoldsCancelled
                } else {
                    CoreStage::Cleared
                })
                &&& r.0.join_waker is None
                &&& r.1 == RunResult::Cancelled {
                    join_wake: if self.0.state.join_interest {
                        self.0.join_waker
                    } else {
                        None
                    },
                }
            },
            !self.0.state.cancelled && outcome is Ready ==> {
                &&& r.0.state == op_step(
                    op_step(self.0.state, TaskOp::PollStart),
                    TaskOp::PollComplete,
                )
                &&& r.0.stage == (if self.0.state.join_interest {
                    CoreStage::HoldsOutput
                } else {
                    CoreStage::Cleared
                })
                &&& r.0.join_waker is None
                &&& r.1 == RunResult::Completed {
                    join_wake: if self.0.state.join_interest {
                        self.0.join_waker
                    } else {
                        None
                    },
                }
            },
            !self.0.state.cancelled && outcome is Panicked ==> {
                &&& r.0.state == op_step(
                    op_step(self.0.state, TaskOp::PollStart),
                    TaskOp::PollComplete,
                )
                &&& r.0.stage == (if self.0.state.join_interest {
                    CoreStage::HoldsPanic
                } else {
                    CoreStage::Cleared
                })
                &&& r.0.join_waker is None
                &&& r.1 == RunResult::Panicked {
                    join_wake: if self.0.state.join_interest {
                        self.0.join_waker
                    } else {
                        None
                    },
                }
            },
            !self.0.state.cancelled && outcome is Pending ==> {
                &&& r.0.state == op_step(
                    op_step(self.0.state, TaskOp::PollStart),
                    TaskOp::PollPending,
                )
                &&& r.0.stage == self.0.stage
                &&& r.0.join_waker == self.0.join_waker
                &&& r.1 == RunResult::Idled
            },
    {
        let Notified(mut task) = self;
        let started = task.state.transition_to_running();
        assert(started);
        if task.state.cancelled {
            let join_wake = task.state.transition_to_complete();
            if join_wake {
                task.stage = CoreStage::HoldsCancelled;
            } else {
                task.stage = CoreStage::Cleared;
            }
            let woken = if join_wake { task.join_waker } else { None };
            task.join_waker = None;
            (task, RunResult::Cancelled { join_wake: woken })
        } else {
            match outcome {
                PollOutcome::Ready => {
                    let join_wake = task.state.transition_to_complete();
                    if join_wake {
                        task.stage = CoreStage::HoldsOutput;
                    } else {
                        task.stage = CoreStage::Cleared;
                    }
                    let woken = if join_wake { task.join_waker } else { None };
                    task.join_waker = None;
                    (task, RunResult::Completed { join_wake: woken })
                },
                PollOutcome::Panicked => {
                    let join_wake = task.state.transition_to_complete();
                    if join_wake {
                        task.stage = CoreStage::HoldsPanic;
                    } else {
                        task.stage = CoreStage::Cleared;
                    }
                    let woken = if join_wake { task.join_waker } else { None };
                    task.join_waker = None;
                    (task, RunResult::Panicked { join_wake: woken })
                },
                PollOutcome::Pending => {
                    let _requeue = task.state.transition_to_idle();
                    (task, RunResult::Idled)
                },
            }
        }
    }

    /// Cancel a queued task: request shutdown and hand the queue's reference
    /// back so the scheduler can run it once to drop the future.
    pub fn shutdown(self) -> (t: Task)
        requires
            self.wf(),
        ensures
            t.state == op_step(self.0.state, TaskOp::Shutdown),
            t.stage == self.0.stage,
            t.join_waker == self.0.join_waker,
            t.wf(),
    {
        let Notified(mut task) = self;
        let _schedule = task.shutdown();
        task
    }
}

} // verus!

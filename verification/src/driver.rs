//! The queue driver: the state machine that sequences task execution.
//!
//! The driver owns the pending queue and the single active-task slot. An
//! execution loop around it performs the outside work (starting an
//! operation, reading one progress sample, sleeping, suspending) and hands
//! the answers back; every decision about queue state and emitted events
//! is made here, with verified logic.
//!
//! Two ghost sequences record the trace: the variants ever submitted, in
//! enqueue order, and the variants whose terminal event (completion or
//! failure) was emitted, in emission order. The well-formedness invariant
//! ties them together and yields the FIFO law.

use vstd::prelude::*;

use crate::active::{PollSample, ResolvedTask};
use crate::card::CardVariant;
use crate::progress::ratio_milli_spec;
use crate::queue::TaskQueue;
use crate::status::{kind_initial, TaskStatus};
use crate::task::{QueuedTask, ResolveOutcome, TaskError};

verus! {

/// The events the driver emits towards the presentation layer.
#[derive(Debug)]
pub enum QueueEvent {
    /// One poll of the active task: progress pair, clamped completion
    /// ratio in thousandths, and current status.
    ProgressTick {
        variant: CardVariant,
        current: u64,
        total: u64,
        ratio_milli: u64,
        status: TaskStatus,
    },
    /// The active task reached `Finished` and was torn down.
    JobCompleted { variant: CardVariant },
    /// A task failed to resolve, or the active task failed to report;
    /// the task was abandoned.
    JobFailed { variant: CardVariant, title: String, author: String, error_message: String },
}

/// What the execution loop should do next, decided from driver state.
#[derive(Debug, Clone, Copy, PartialEq, Eq, Structural)]
pub enum DriverCommand {
    /// Queue empty, nothing active: block awaiting an enqueue.
    Suspend,
    /// Nothing active, tasks pending: start the head task.
    ResolveNext,
    /// A task is active: read one progress sample.
    PollActive,
}

/// The answer of one poll of the underlying operation: a sample, or the
/// admission that the operation can no longer be introspected.
#[derive(Debug)]
pub enum PollOutcome {
    Sample(PollSample),
    StatusError { message: String },
}

/// The queue driver: pending tasks, the single active slot, and the
/// ghost trace of submissions and terminal events.
pub struct QueueDriver {
    pub queue: TaskQueue,
    pub active: Option<ResolvedTask>,
    pub submitted: Ghost<Seq<CardVariant>>,
    pub settled: Ghost<Seq<CardVariant>>,
}

impl QueueDriver {
    /// The pending tasks, head first.
    pub open spec fn pending(self) -> Seq<QueuedTask> {
        self.queue.pending()
    }

    /// The variants of the pending tasks, in queue order.
    pub open spec fn pending_variants(self) -> Seq<CardVariant> {
        self.pending().map_values(|t: QueuedTask| t.variant_spec())
    }

    /// The active task, if one is running.
    pub open spec fn active_task(self) -> Option<ResolvedTask> {
        self.active
    }

    /// The variant of the active task as a (zero- or one-element) trace
    /// segment.
    pub open spec fn active_variants(self) -> Seq<CardVariant> {
        match self.active {
            Some(active) => seq![active.variant_spec()],
            None => Seq::empty(),
        }
    }

    /// How many tasks are active: never more than one, since the one
    /// `active` slot is all the driver has.
    pub open spec fn active_count(self) -> int {
        if self.active is Some {
            1
        } else {
            0
        }
    }

    /// Every variant ever enqueued, in enqueue order.
    pub open spec fn submitted_trace(self) -> Seq<CardVariant> {
        self.submitted@
    }

    /// Every variant whose terminal event was emitted, in emission order.
    pub open spec fn settled_trace(self) -> Seq<CardVariant> {
        self.settled@
    }

    /// Well-formedness: the active task is sound and not yet finished
    /// (it is torn down the moment `Finished` is observed), and the
    /// submission trace is exactly the settled trace, then the active
    /// task, then the pending tasks — jobs move through the pipeline in
    /// arrival order and nowhere else.
    pub open spec fn wf(self) -> bool {
        &&& (self.active matches Some(active) ==> {
            &&& active.wf()
            &&& !active.status_spec().is_terminal()
        })
        &&& self.submitted_trace() == self.settled_trace() + self.active_variants()
            + self.pending_variants()
    }

    /// A fresh, idle driver.
    pub fn new() -> (d: QueueDriver)
        ensures
            d.wf(),
            d.pending() == Seq::<QueuedTask>::empty(),
            d.active_task() is None,
            d.submitted_trace() == Seq::<CardVariant>::empty(),
            d.settled_trace() == Seq::<CardVariant>::empty(),
    {
        let d = QueueDriver {
            queue: TaskQueue::new(),
            active: None,
            submitted: Ghost(Seq::empty()),
            settled: Ghost(Seq::empty()),
        };
        proof {
            assert(d.submitted_trace() =~= d.settled_trace() + d.active_variants()
                + d.pending_variants());
        }
        d
    }

    /// Append a task to the tail of the pending queue. The active task
    /// and everything already queued are untouched.
    pub fn enqueue(&mut self, task: QueuedTask)
        requires
            old(self).wf(),
        ensures
            final(self).wf(),
            final(self).pending() == old(self).pending().push(task),
            final(self).active_task() == old(self).active_task(),
            final(self).submitted_trace() == old(self).submitted_trace().push(
                task.variant_spec(),
            ),
            final(self).settled_trace() == old(self).settled_trace(),
    {
        let ghost variant = task.variant_spec();
        self.queue.enqueue(task);
        proof {
            self.submitted@ = self.submitted@.push(variant);
            assert(final(self).pending_variants() =~= old(self).pending_variants().push(variant));
            assert(final(self).submitted_trace() =~= final(self).settled_trace()
                + final(self).active_variants() + final(self).pending_variants());
        }
    }

    /// Look at the head task without mutating the queue.
    pub fn peek_next(&self) -> (r: Option<&QueuedTask>)
        ensures
            match r {
                Some(task) => self.pending().len() > 0 && *task == self.pending()[0],
                None => self.pending().len() == 0,
            },
    {
        self.queue.peek_next()
    }

    /// How many tasks are pending behind the active one.
    pub fn queued_len(&self) -> (r: usize)
        ensures
            r == self.pending().len(),
    {
        self.queue.len()
    }

    /// Whether a task is currently active.
    pub fn has_active(&self) -> (r: bool)
        ensures
            r == (self.active_task() is Some),
    {
        self.active.is_some()
    }

    /// Look at the running task, for reading its telemetry between
    /// polls, without mutating the driver.
    pub fn current_task(&self) -> (r: Option<&ResolvedTask>)
        ensures
            match r {
                Some(active) => self.active_task() == Some(*active),
                None => self.active_task() is None,
            },
    {
        self.active.as_ref()
    }

    /// What the execution loop should do next: poll while a task runs,
    /// start the head task while any is pending, otherwise suspend
    /// rather than busy-poll.
    pub open spec fn next_command_spec(self) -> DriverCommand {
        if self.active is Some {
            DriverCommand::PollActive
        } else if self.pending().len() > 0 {
            DriverCommand::ResolveNext
        } else {
            DriverCommand::Suspend
        }
    }

    /// Decide the next step from the current state.
    pub fn next_command(&self) -> (r: DriverCommand)
        ensures
            r == self.next_command_spec(),
    {
        if self.active.is_some() {
            DriverCommand::PollActive
        } else if self.queue.is_empty() {
            DriverCommand::Suspend
        } else {
            DriverCommand::ResolveNext
        }
    }

    /// Take the head task and resolve it with the capability's answer.
    ///
    /// On success the task becomes the active one and no event is
    /// emitted; on refusal the task is abandoned, its failure event is
    /// emitted, and the driver stays idle — the rest of the queue is
    /// untouched either way, so a failed resolution never blocks the
    /// tasks behind it.
    pub fn on_resolve(&mut self, outcome: ResolveOutcome) -> (emitted: Option<QueueEvent>)
        requires
            old(self).wf(),
            old(self).active_task() is None,
            old(self).pending().len() > 0,
        ensures
            final(self).wf(),
            final(self).pending() == old(self).pending().drop_first(),
            final(self).submitted_trace() == old(self).submitted_trace(),
            outcome is Started ==> {
                let head = old(self).pending()[0];
                &&& final(self).active_task() matches Some(active)
                &&& active.variant_spec() == head.variant_spec()
                &&& active.kind_spec() == head.kind_spec()
                &&& active.title_view() == head.title_spec()
                &&& active.author_view() == head.author_spec()
                &&& active.current_spec() == 0
                &&& active.total_spec() == 0
                &&& active.status_spec() == kind_initial(head.kind_spec())
                &&& final(self).settled_trace() == old(self).settled_trace()
                &&& emitted is None
            },
            outcome matches ResolveOutcome::Refused { message } ==> {
                let head = old(self).pending()[0];
                &&& final(self).active_task() is None
                &&& final(self).settled_trace() == old(self).settled_trace().push(
                    head.variant_spec(),
                )
                &&& emitted matches Some(e)
                &&& e matches QueueEvent::JobFailed { variant, title, author, error_message }
                &&& variant == head.variant_spec()
                &&& title@ == head.title_spec()
                &&& author@ == head.author_spec()
                &&& error_message == message
            },
    {
        proof {
            assert(old(self).pending_variants().len() > 0);
        }
        let task = self.queue.take_next().unwrap();
        let ghost head_variant = task.variant_spec();
        let variant = task.get_variant();
        let title = task.get_title();
        let author = task.get_author();
        let emitted = match task.resolve(outcome) {
            Ok(active) => {
                self.active = Some(active);
                None
            },
            Err(error) => {
                proof {
                    self.settled@ = self.settled@.push(head_variant);
                }
                let error_message = match error {
                    TaskError::Resolution { message } => message,
                    TaskError::StatusQuery { message } => message,
                };
                Some(QueueEvent::JobFailed { variant, title, author, error_message })
            },
        };
        proof {
            assert(old(self).pending_variants() =~= seq![head_variant]
                + final(self).pending_variants());
            assert(final(self).submitted_trace() =~= final(self).settled_trace()
                + final(self).active_variants() + final(self).pending_variants());
        }
        emitted
    }

    /// Poll the active task with the capability's answer.
    ///
    /// A sample is absorbed monotonically and reported as one progress
    /// tick, emitted on every poll even if unchanged; the first sample
    /// that brings the status to `Finished` also emits the completion
    /// event and tears the active task down. A status-query failure
    /// abandons the task with a failure event. Either terminal outcome
    /// returns the driver to idle with the pending queue untouched.
    pub fn on_poll(&mut self, outcome: PollOutcome) -> (emitted: Vec<QueueEvent>)
        requires
            old(self).wf(),
            old(self).active_task() is Some,
        ensures
            final(self).wf(),
            final(self).pending() == old(self).pending(),
            final(self).submitted_trace() == old(self).submitted_trace(),
            outcome matches PollOutcome::StatusError { message } ==> {
                let a = old(self).active_task().unwrap();
                &&& final(self).active_task() is None
                &&& final(self).settled_trace() == old(self).settled_trace().push(
                    a.variant_spec(),
                )
                &&& emitted@.len() == 1
                &&& emitted@[0] matches QueueEvent::JobFailed {
                    variant,
                    title,
                    author,
                    error_message,
                }
                &&& variant == a.variant_spec()
                &&& title@ == a.title_view()
                &&& author@ == a.author_view()
                &&& error_message == message
            },
            outcome matches PollOutcome::Sample(sample) ==> {
                let a = old(self).active_task().unwrap();
                let upd = a.observed_spec(sample);
                &&& emitted@.len() >= 1
                &&& emitted@[0] matches QueueEvent::ProgressTick {
                    variant,
                    current,
                    total,
                    ratio_milli,
                    status,
                }
                &&& variant == a.variant_spec()
                &&& current == upd.current_spec()
                &&& total == upd.total_spec()
                &&& ratio_milli as int == ratio_milli_spec(upd.current_spec(), upd.total_spec())
                &&& status == upd.status_spec()
                &&& upd.current_spec() >= a.current_spec()
                &&& upd.total_spec() >= a.total_spec()
                &&& upd.status_spec().stage() >= a.status_spec().stage()
                &&& (upd.status_spec().is_terminal() ==> {
                    &&& final(self).active_task() is None
                    &&& final(self).settled_trace() == old(self).settled_trace().push(
                        a.variant_spec(),
                    )
                    &&& emitted@.len() == 2
                    &&& emitted@[1] == QueueEvent::JobCompleted { variant: a.variant_spec() }
                })
                &&& (!upd.status_spec().is_terminal() ==> {
                    &&& final(self).active_task() == Some(upd)
                    &&& final(self).settled_trace() == old(self).settled_trace()
                    &&& emitted@.len() == 1
                })
            },
    {
        let mut active = self.active.take().unwrap();
        let ghost active_variant = active.variant_spec();
        let variant = active.get_variant();
        let mut events: Vec<QueueEvent> = Vec::new();
        match outcome {
            PollOutcome::StatusError { message } => {
                events.push(
                    QueueEvent::JobFailed {
                        variant,
                        title: active.get_title(),
                        author: active.get_author(),
                        error_message: message,
                    },
                );
                proof {
                    self.settled@ = self.settled@.push(active_variant);
                }
            },
            PollOutcome::Sample(sample) => {
                active.observe(&sample);
                events.push(
                    QueueEvent::ProgressTick {
                        variant,
                        current: active.get_current(),
                        total: active.get_total(),
                        ratio_milli: active.get_progress(),
                        status: active.get_status(),
                    },
                );
                if active.is_finished() {
                    events.push(QueueEvent::JobCompleted { variant });
                    proof {
                        self.settled@ = self.settled@.push(active_variant);
                    }
                } else {
                    self.active = Some(active);
                }
            },
        }
        proof {
            assert(old(self).active_variants() =~= seq![active_variant]);
            assert(final(self).submitted_trace() =~= final(self).settled_trace()
                + final(self).active_variants() + final(self).pending_variants());
        }
        events
    }
}


/// Law: tasks settle in strict first-in-first-out order. At every
/// reachable driver state, the variants whose terminal event has been
/// emitted are exactly the earliest-enqueued variants, in enqueue order;
/// terminal events can therefore never overtake the arrival order.
pub proof fn lemma_fifo_order(d: QueueDriver)
    requires
        d.wf(),
    ensures
        d.settled_trace().len() <= d.submitted_trace().len(),
        d.settled_trace() == d.submitted_trace().take(d.settled_trace().len() as int),
{
    assert(d.settled_trace() =~= d.submitted_trace().take(d.settled_trace().len() as int));
}

/// Law: at most one task is active at any timepoint — the driver owns a
/// single active slot and nothing else can hold a running task.
pub proof fn lemma_single_active(d: QueueDriver)
    ensures
        d.active_count() <= 1,
{
}

/// Law: a failed resolution does not block the tasks queued behind it.
/// Whenever the driver is idle and tasks are pending — which is exactly
/// the state `on_resolve` leaves on refusal — its next step is to start
/// the head task, never to retry the abandoned one or to stall.
pub proof fn lemma_failure_does_not_block(d: QueueDriver)
    requires
        d.active_task() is None,
        d.pending().len() > 0,
    ensures
        d.next_command_spec() == DriverCommand::ResolveNext,
{
}

/// Law: a running task has never yet reported the terminal status; since
/// `on_poll` tears the task down on the first `Finished` observation,
/// each task's status sequence ends with exactly one `Finished` tick,
/// emitted together with its completion event.
pub proof fn lemma_active_not_finished(d: QueueDriver)
    requires
        d.wf(),
    ensures
        d.active_task() matches Some(active) ==> {
            &&& active.wf()
            &&& !active.status_spec().is_terminal()
        },
{
}

} // verus!

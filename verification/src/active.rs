//! The live, started form of a queued task: it tracks the last reported
//! progress and status, and absorbs raw samples from the underlying
//! operation without ever letting the reported telemetry regress.

use vstd::prelude::*;

use crate::card::CardVariant;
use crate::progress::{ratio_milli, ratio_milli_spec};
use crate::status::{kind_allows, kind_initial, initial_status, status_allowed, TaskKind,
    TaskStatus};

verus! {

/// One raw sample read from the underlying long-running operation:
/// its progress pair and its phase, already mapped onto [`TaskStatus`].
#[derive(Debug, Clone, Copy)]
pub struct PollSample {
    pub current: u64,
    pub total: u64,
    pub status: TaskStatus,
}

/// A resolved, running task.
///
/// The handle to the underlying operation is owned by the surrounding
/// execution loop; this value is the verified core's view of it, and the
/// only source of the telemetry that reaches the presentation layer.
#[derive(Debug)]
pub struct ResolvedTask {
    pub variant: CardVariant,
    pub kind: TaskKind,
    pub title: String,
    pub author: String,
    pub current: u64,
    pub total: u64,
    pub status: TaskStatus,
}

impl ResolvedTask {
    /// The task's identity.
    pub open spec fn variant_spec(self) -> CardVariant {
        self.variant
    }

    /// The task's kind.
    pub open spec fn kind_spec(self) -> TaskKind {
        self.kind
    }

    /// The task's display title.
    pub open spec fn title_view(self) -> Seq<char> {
        self.title@
    }

    /// The task's display author.
    pub open spec fn author_view(self) -> Seq<char> {
        self.author@
    }

    /// Last reported progress.
    pub open spec fn current_spec(self) -> u64 {
        self.current
    }

    /// Last reported progress total.
    pub open spec fn total_spec(self) -> u64 {
        self.total
    }

    /// Last reported status.
    pub open spec fn status_spec(self) -> TaskStatus {
        self.status
    }

    /// The reported status always belongs to the task kind's subsequence.
    pub open spec fn wf(self) -> bool {
        kind_allows(self.kind, self.status)
    }

    /// A freshly started task: no progress yet, status at the first
    /// phase of its kind's subsequence.
    pub(crate) fn start(
        variant: CardVariant,
        kind: TaskKind,
        title: String,
        author: String,
    ) -> (r: ResolvedTask)
        ensures
            r.wf(),
            r.variant_spec() == variant,
            r.kind_spec() == kind,
            r.title_view() == title@,
            r.author_view() == author@,
            r.current_spec() == 0,
            r.total_spec() == 0,
            r.status_spec() == kind_initial(kind),
    {
        ResolvedTask {
            variant,
            kind,
            title,
            author,
            current: 0,
            total: 0,
            status: initial_status(kind),
        }
    }

    /// Get component variant.
    pub fn get_variant(&self) -> (r: CardVariant)
        ensures
            r == self.variant_spec(),
    {
        self.variant
    }

    /// Get tasked component title.
    pub fn get_title(&self) -> (r: String)
        ensures
            r@ == self.title_view(),
    {
        self.title.clone()
    }

    /// Get tasked component author.
    pub fn get_author(&self) -> (r: String)
        ensures
            r@ == self.author_view(),
    {
        self.author.clone()
    }

    /// Get current task progress.
    pub fn get_current(&self) -> (r: u64)
        ensures
            r == self.current_spec(),
    {
        self.current
    }

    /// Get total task progress.
    pub fn get_total(&self) -> (r: u64)
        ensures
            r == self.total_spec(),
    {
        self.total
    }

    /// Get task completion progress as a clamped ratio in thousandths.
    pub fn get_progress(&self) -> (r: u64)
        ensures
            r as int == ratio_milli_spec(self.current_spec(), self.total_spec()),
            r <= 1000,
            self.total_spec() == 0 ==> r == 0,
    {
        ratio_milli(self.current, self.total)
    }

    /// Get the last reported task status.
    pub fn get_status(&self) -> (r: TaskStatus)
        ensures
            r == self.status_spec(),
    {
        self.status
    }

    /// Check if the task is finished.
    pub fn is_finished(&self) -> (r: bool)
        ensures
            r == self.status_spec().is_terminal(),
    {
        self.status.is_finished()
    }

    /// The task's state after absorbing one raw sample: progress values
    /// only ever grow, and a sampled status is taken over only when it
    /// belongs to the kind's subsequence and does not step backwards.
    pub open spec fn observed_spec(self, sample: PollSample) -> ResolvedTask {
        ResolvedTask {
            current: if sample.current >= self.current {
                sample.current
            } else {
                self.current
            },
            total: if sample.total >= self.total {
                sample.total
            } else {
                self.total
            },
            status: if kind_allows(self.kind, sample.status) && sample.status.stage()
                >= self.status.stage() {
                sample.status
            } else {
                self.status
            },
            ..self
        }
    }

    /// Absorb one raw sample from the underlying operation.
    pub fn observe(&mut self, sample: &PollSample)
        requires
            old(self).wf(),
        ensures
            *final(self) == old(self).observed_spec(*sample),
            final(self).wf(),
            final(self).current_spec() >= old(self).current_spec(),
            final(self).total_spec() >= old(self).total_spec(),
            final(self).status_spec().stage() >= old(self).status_spec().stage(),
            kind_allows(old(self).kind_spec(), sample.status) && sample.status.stage()
                >= old(self).status_spec().stage() ==> final(self).status_spec() == sample.status,
    {
        if sample.current >= self.current {
            self.current = sample.current;
        }
        if sample.total >= self.total {
            self.total = sample.total;
        }
        if status_allowed(self.kind, sample.status) && sample.status.stage_index()
            >= self.status.stage_index() {
            self.status = sample.status;
        }
    }
}

} // verus!

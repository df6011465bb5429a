//! The shared vocabulary of installation phases and the task kinds that
//! map onto it.

use vstd::prelude::*;

verus! {

/// All the possible task statuses in one enum.
///
/// The variants form one ordered progression; each task kind passes
/// through its own subsequence of it, always ending at `Finished`.
#[derive(Debug, Clone, Copy, PartialEq, Eq, Structural)]
pub enum TaskStatus {
    PreparingTransition,
    Downloading,
    Unpacking,
    FinishingTransition,
    ApplyingHdiffPatches,
    DeletingObsoleteFiles,
    CreatingPrefix,
    InstallingFonts,
    Finished,
}

impl TaskStatus {
    /// Position of the status in the overall progression.
    pub open spec fn stage(self) -> int {
        match self {
            TaskStatus::PreparingTransition => 0,
            TaskStatus::Downloading => 1,
            TaskStatus::Unpacking => 2,
            TaskStatus::FinishingTransition => 3,
            TaskStatus::ApplyingHdiffPatches => 4,
            TaskStatus::DeletingObsoleteFiles => 5,
            TaskStatus::CreatingPrefix => 6,
            TaskStatus::InstallingFonts => 7,
            TaskStatus::Finished => 8,
        }
    }

    /// Runtime view of [`Self::stage`].
    pub fn stage_index(&self) -> (r: u8)
        ensures
            r as int == self.stage(),
    {
        match self {
            TaskStatus::PreparingTransition => 0,
            TaskStatus::Downloading => 1,
            TaskStatus::Unpacking => 2,
            TaskStatus::FinishingTransition => 3,
            TaskStatus::ApplyingHdiffPatches => 4,
            TaskStatus::DeletingObsoleteFiles => 5,
            TaskStatus::CreatingPrefix => 6,
            TaskStatus::InstallingFonts => 7,
            TaskStatus::Finished => 8,
        }
    }

    /// `Finished` is the one terminal status.
    pub open spec fn is_terminal(self) -> bool {
        self is Finished
    }

    /// Check if the status is the terminal `Finished`.
    pub fn is_finished(&self) -> (r: bool)
        ensures
            r == self.is_terminal(),
    {
        *self == TaskStatus::Finished
    }
}

/// The kinds of installable tasks the queue accepts.
#[derive(Debug, Clone, Copy, PartialEq, Eq, Structural)]
pub enum TaskKind {
    GameDiffInstall,
    ComponentDownload,
    PrefixCreation,
}

/// The subsequence of statuses that a task kind passes through.
pub open spec fn kind_allows(kind: TaskKind, status: TaskStatus) -> bool {
    match kind {
        TaskKind::GameDiffInstall => status.stage() <= 5 || status is Finished,
        TaskKind::ComponentDownload => {
            ||| status is Downloading
            ||| status is Unpacking
            ||| status is Finished
        },
        TaskKind::PrefixCreation => {
            ||| status is CreatingPrefix
            ||| status is InstallingFonts
            ||| status is Finished
        },
    }
}

/// Runtime view of [`kind_allows`].
pub fn status_allowed(kind: TaskKind, status: TaskStatus) -> (r: bool)
    ensures
        r == kind_allows(kind, status),
{
    match kind {
        TaskKind::GameDiffInstall => {
            status.stage_index() <= 5 || status == TaskStatus::Finished
        },
        TaskKind::ComponentDownload => {
            status == TaskStatus::Downloading || status == TaskStatus::Unpacking
                || status == TaskStatus::Finished
        },
        TaskKind::PrefixCreation => {
            status == TaskStatus::CreatingPrefix || status == TaskStatus::InstallingFonts
                || status == TaskStatus::Finished
        },
    }
}

/// The first, non-terminal status of a task kind's subsequence.
pub open spec fn kind_initial(kind: TaskKind) -> TaskStatus {
    match kind {
        TaskKind::GameDiffInstall => TaskStatus::PreparingTransition,
        TaskKind::ComponentDownload => TaskStatus::Downloading,
        TaskKind::PrefixCreation => TaskStatus::CreatingPrefix,
    }
}

/// Runtime view of [`kind_initial`].
pub fn initial_status(kind: TaskKind) -> (r: TaskStatus)
    ensures
        r == kind_initial(kind),
        kind_allows(kind, r),
        !r.is_terminal(),
{
    match kind {
        TaskKind::GameDiffInstall => TaskStatus::PreparingTransition,
        TaskKind::ComponentDownload => TaskStatus::Downloading,
        TaskKind::PrefixCreation => TaskStatus::CreatingPrefix,
    }
}

/// Every kind's subsequence starts below `Finished` and contains `Finished`,
/// so a task can always be observed running and always terminate.
pub proof fn lemma_kind_subsequence_shape(kind: TaskKind)
    ensures
        kind_allows(kind, kind_initial(kind)),
        !kind_initial(kind).is_terminal(),
        kind_allows(kind, TaskStatus::Finished),
{
}

} // verus!

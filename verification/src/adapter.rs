//! Per-kind adapters: each task kind's underlying capability reports its
//! own phase vocabulary; these maps carry every such phase onto the shared
//! [`TaskStatus`] progression, totally and order-preservingly, so a
//! running task can never be told a status outside its kind's subsequence.

use vstd::prelude::*;

use crate::status::{kind_allows, TaskKind, TaskStatus};

verus! {

/// The phases a game-diff installation reports.
#[derive(Debug, Clone, Copy, PartialEq, Eq, Structural)]
pub enum DiffUpdateStage {
    PreparingTransition,
    Downloading,
    Unpacking,
    FinishingTransition,
    ApplyingHdiffPatches,
    DeletingObsoleteFiles,
    Finished,
}

impl DiffUpdateStage {
    /// Position of the phase in the capability's own progression.
    pub open spec fn position(self) -> int {
        match self {
            DiffUpdateStage::PreparingTransition => 0,
            DiffUpdateStage::Downloading => 1,
            DiffUpdateStage::Unpacking => 2,
            DiffUpdateStage::FinishingTransition => 3,
            DiffUpdateStage::ApplyingHdiffPatches => 4,
            DiffUpdateStage::DeletingObsoleteFiles => 5,
            DiffUpdateStage::Finished => 6,
        }
    }

    /// The shared status the phase maps onto.
    pub open spec fn as_status_spec(self) -> TaskStatus {
        match self {
            DiffUpdateStage::PreparingTransition => TaskStatus::PreparingTransition,
            DiffUpdateStage::Downloading => TaskStatus::Downloading,
            DiffUpdateStage::Unpacking => TaskStatus::Unpacking,
            DiffUpdateStage::FinishingTransition => TaskStatus::FinishingTransition,
            DiffUpdateStage::ApplyingHdiffPatches => TaskStatus::ApplyingHdiffPatches,
            DiffUpdateStage::DeletingObsoleteFiles => TaskStatus::DeletingObsoleteFiles,
            DiffUpdateStage::Finished => TaskStatus::Finished,
        }
    }

    /// Map the phase onto the shared status vocabulary.
    pub fn as_status(&self) -> (r: TaskStatus)
        ensures
            r == self.as_status_spec(),
            kind_allows(TaskKind::GameDiffInstall, r),
    {
        match self {
            DiffUpdateStage::PreparingTransition => TaskStatus::PreparingTransition,
            DiffUpdateStage::Downloading => TaskStatus::Downloading,
            DiffUpdateStage::Unpacking => TaskStatus::Unpacking,
            DiffUpdateStage::FinishingTransition => TaskStatus::FinishingTransition,
            DiffUpdateStage::ApplyingHdiffPatches => TaskStatus::ApplyingHdiffPatches,
            DiffUpdateStage::DeletingObsoleteFiles => TaskStatus::DeletingObsoleteFiles,
            DiffUpdateStage::Finished => TaskStatus::Finished,
        }
    }
}

/// The diff adapter is total into its kind's subsequence, preserves the
/// capability's own phase order, and maps exactly its last phase onto
/// the terminal status.
pub proof fn lemma_diff_adapter_order(a: DiffUpdateStage, b: DiffUpdateStage)
    ensures
        kind_allows(TaskKind::GameDiffInstall, a.as_status_spec()),
        a.position() <= b.position() ==> a.as_status_spec().stage() <= b.as_status_spec().stage(),
        a.as_status_spec().is_terminal() <==> a is Finished,
{
}

/// The phases a runtime-component download reports.
#[derive(Debug, Clone, Copy, PartialEq, Eq, Structural)]
pub enum ComponentDownloadStage {
    Downloading,
    Unpacking,
    Finished,
}

impl ComponentDownloadStage {
    /// Position of the phase in the capability's own progression.
    pub open spec fn position(self) -> int {
        match self {
            ComponentDownloadStage::Downloading => 0,
            ComponentDownloadStage::Unpacking => 1,
            ComponentDownloadStage::Finished => 2,
        }
    }

    /// The shared status the phase maps onto.
    pub open spec fn as_status_spec(self) -> TaskStatus {
        match self {
            ComponentDownloadStage::Downloading => TaskStatus::Downloading,
            ComponentDownloadStage::Unpacking => TaskStatus::Unpacking,
            ComponentDownloadStage::Finished => TaskStatus::Finished,
        }
    }

    /// Map the phase onto the shared status vocabulary.
    pub fn as_status(&self) -> (r: TaskStatus)
        ensures
            r == self.as_status_spec(),
            kind_allows(TaskKind::ComponentDownload, r),
    {
        match self {
            ComponentDownloadStage::Downloading => TaskStatus::Downloading,
            ComponentDownloadStage::Unpacking => TaskStatus::Unpacking,
            ComponentDownloadStage::Finished => TaskStatus::Finished,
        }
    }
}

/// The component adapter is total into its kind's subsequence, preserves
/// the capability's own phase order, and maps exactly its last phase
/// onto the terminal status.
pub proof fn lemma_component_adapter_order(a: ComponentDownloadStage, b: ComponentDownloadStage)
    ensures
        kind_allows(TaskKind::ComponentDownload, a.as_status_spec()),
        a.position() <= b.position() ==> a.as_status_spec().stage() <= b.as_status_spec().stage(),
        a.as_status_spec().is_terminal() <==> a is Finished,
{
}

/// The phases an environment-prefix creation reports.
#[derive(Debug, Clone, Copy, PartialEq, Eq, Structural)]
pub enum PrefixCreationStage {
    CreatingPrefix,
    InstallingFonts,
    Finished,
}

impl PrefixCreationStage {
    /// Position of the phase in the capability's own progression.
    pub open spec fn position(self) -> int {
        match self {
            PrefixCreationStage::CreatingPrefix => 0,
            PrefixCreationStage::InstallingFonts => 1,
            PrefixCreationStage::Finished => 2,
        }
    }

    /// The shared status the phase maps onto.
    pub open spec fn as_status_spec(self) -> TaskStatus {
        match self {
            PrefixCreationStage::CreatingPrefix => TaskStatus::CreatingPrefix,
            PrefixCreationStage::InstallingFonts => TaskStatus::InstallingFonts,
            PrefixCreationStage::Finished => TaskStatus::Finished,
        }
    }

    /// Map the phase onto the shared status vocabulary.
    pub fn as_status(&self) -> (r: TaskStatus)
        ensures
            r == self.as_status_spec(),
            kind_allows(TaskKind::PrefixCreation, r),
    {
        match self {
            PrefixCreationStage::CreatingPrefix => TaskStatus::CreatingPrefix,
            PrefixCreationStage::InstallingFonts => TaskStatus::InstallingFonts,
            PrefixCreationStage::Finished => TaskStatus::Finished,
        }
    }
}

/// The prefix adapter is total into its kind's subsequence, preserves
/// the capability's own phase order, and maps exactly its last phase
/// onto the terminal status.
pub proof fn lemma_prefix_adapter_order(a: PrefixCreationStage, b: PrefixCreationStage)
    ensures
        kind_allows(TaskKind::PrefixCreation, a.as_status_spec()),
        a.position() <= b.position() ==> a.as_status_spec().stage() <= b.as_status_spec().stage(),
        a.as_status_spec().is_terminal() <==> a is Finished,
{
}

} // verus!

//! Queued tasks: immutable descriptions of pending work, consumed exactly
//! once when resolved into a running [`ResolvedTask`].

use vstd::prelude::*;

use crate::active::ResolvedTask;
use crate::card::CardVariant;
use crate::status::{kind_initial, TaskKind};

verus! {

/// The errors the pipeline can raise. Both are fatal to the one task
/// they concern and leave the rest of the queue untouched.
#[derive(Debug)]
pub enum TaskError {
    /// A queued task could not be started.
    Resolution { message: String },
    /// A running task could not report its progress or status.
    StatusQuery { message: String },
}

impl TaskError {
    /// The error's message.
    pub open spec fn message_view(self) -> Seq<char> {
        match self {
            TaskError::Resolution { message } => message@,
            TaskError::StatusQuery { message } => message@,
        }
    }

    /// Get the error's message.
    pub fn message(&self) -> (r: &String)
        ensures
            r@ == self.message_view(),
    {
        match self {
            TaskError::Resolution { message } => message,
            TaskError::StatusQuery { message } => message,
        }
    }
}

/// The answer of the underlying capability when asked to start a queued
/// task: either the long-running operation began, or it refused (for
/// example, no applicable update exists).
#[derive(Debug)]
pub enum ResolveOutcome {
    Started,
    Refused { message: String },
}

/// A queued task: one pending unit of installable work.
///
/// A closed union over the supported task kinds; the payload a kind
/// needs is carried as plain values.
#[derive(Debug)]
pub enum QueuedTask {
    /// Download and apply a game version diff.
    DownloadDiff { variant: CardVariant },
    /// Download a runtime component, with overriding display metadata.
    DownloadComponent { variant: CardVariant, title: String, author: String },
    /// Create an environment prefix on disk.
    CreatePrefix { path: String, install_corefonts: bool },
}

impl QueuedTask {
    /// The variant the task belongs to.
    pub open spec fn variant_spec(self) -> CardVariant {
        match self {
            QueuedTask::DownloadDiff { variant } => variant,
            QueuedTask::DownloadComponent { variant, .. } => variant,
            QueuedTask::CreatePrefix { .. } => CardVariant::WinePrefix,
        }
    }

    /// The task's kind.
    pub open spec fn kind_spec(self) -> TaskKind {
        match self {
            QueuedTask::DownloadDiff { .. } => TaskKind::GameDiffInstall,
            QueuedTask::DownloadComponent { .. } => TaskKind::ComponentDownload,
            QueuedTask::CreatePrefix { .. } => TaskKind::PrefixCreation,
        }
    }

    /// The task's display title: the component override where one is
    /// carried, else derived from the variant.
    pub open spec fn title_spec(self) -> Seq<char> {
        match self {
            QueuedTask::DownloadComponent { title, .. } => title@,
            _ => self.variant_spec().title_spec(),
        }
    }

    /// The task's display author, like the title.
    pub open spec fn author_spec(self) -> Seq<char> {
        match self {
            QueuedTask::DownloadComponent { author, .. } => author@,
            _ => self.variant_spec().author_spec(),
        }
    }

    /// Get component variant.
    pub fn get_variant(&self) -> (r: CardVariant)
        ensures
            r == self.variant_spec(),
    {
        match self {
            QueuedTask::DownloadDiff { variant } => *variant,
            QueuedTask::DownloadComponent { variant, .. } => *variant,
            QueuedTask::CreatePrefix { .. } => CardVariant::WinePrefix,
        }
    }

    /// Get the task's kind.
    pub fn get_kind(&self) -> (r: TaskKind)
        ensures
            r == self.kind_spec(),
    {
        match self {
            QueuedTask::DownloadDiff { .. } => TaskKind::GameDiffInstall,
            QueuedTask::DownloadComponent { .. } => TaskKind::ComponentDownload,
            QueuedTask::CreatePrefix { .. } => TaskKind::PrefixCreation,
        }
    }

    /// Get tasked component title.
    pub fn get_title(&self) -> (r: String)
        ensures
            r@ == self.title_spec(),
    {
        match self {
            QueuedTask::DownloadComponent { title, .. } => title.clone(),
            _ => self.get_variant().get_title(),
        }
    }

    /// Get tasked component author.
    pub fn get_author(&self) -> (r: String)
        ensures
            r@ == self.author_spec(),
    {
        match self {
            QueuedTask::DownloadComponent { author, .. } => author.clone(),
            _ => self.get_variant().get_author(),
        }
    }

    /// Resolve the queued task, consuming it. This is the single point
    /// where "queued" becomes "running": given that the underlying
    /// capability started, the result is a freshly started task of the
    /// same identity; given that it refused, the refusal becomes a
    /// [`TaskError::Resolution`] carrying its message.
    pub fn resolve(self, outcome: ResolveOutcome) -> (r: Result<ResolvedTask, TaskError>)
        ensures
            outcome is Started ==> {
                &&& r matches Ok(active)
                &&& active.wf()
                &&& active.variant_spec() == self.variant_spec()
                &&& active.kind_spec() == self.kind_spec()
                &&& active.title_view() == self.title_spec()
                &&& active.author_view() == self.author_spec()
                &&& active.current_spec() == 0
                &&& active.total_spec() == 0
                &&& active.status_spec() == kind_initial(self.kind_spec())
            },
            outcome matches ResolveOutcome::Refused { message } ==> {
                &&& r matches Err(e)
                &&& e matches TaskError::Resolution { message: m }
                &&& m == message
            },
    {
        match outcome {
            ResolveOutcome::Started => {
                let title = self.get_title();
                let author = self.get_author();
                Ok(ResolvedTask::start(self.get_variant(), self.get_kind(), title, author))
            },
            ResolveOutcome::Refused { message } => Err(TaskError::Resolution { message }),
        }
    }
}

} // verus!

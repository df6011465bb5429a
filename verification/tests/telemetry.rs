use tasks_queue::active::PollSample;
use tasks_queue::active::ResolvedTask;
use tasks_queue::adapter::ComponentDownloadStage;
use tasks_queue::adapter::DiffUpdateStage;
use tasks_queue::adapter::PrefixCreationStage;
use tasks_queue::card::CardVariant;
use tasks_queue::progress::ratio_milli;
use tasks_queue::status::initial_status;
use tasks_queue::status::status_allowed;
use tasks_queue::status::TaskKind;
use tasks_queue::status::TaskStatus;
use tasks_queue::task::QueuedTask;
use tasks_queue::task::ResolveOutcome;
use tasks_queue::task::TaskError;

fn started_diff() -> ResolvedTask {
    QueuedTask::DownloadDiff { variant: CardVariant::Genshin }
        .resolve(ResolveOutcome::Started)
        .expect("a started capability resolves")
}

#[test]
fn ratio_is_clamped_and_zero_on_zero_total() {
    assert_eq!(ratio_milli(0, 0), 0);
    assert_eq!(ratio_milli(123, 0), 0);
    assert_eq!(ratio_milli(0, 100), 0);
    assert_eq!(ratio_milli(1, 3), 333);
    assert_eq!(ratio_milli(50, 100), 500);
    assert_eq!(ratio_milli(100, 100), 1000);
    assert_eq!(ratio_milli(7, 3), 1000);
    assert_eq!(ratio_milli(u64::MAX - 1, u64::MAX), 999);
}

#[test]
fn fresh_task_reports_initial_phase_and_no_progress() {
    let task = started_diff();
    assert_eq!(task.get_variant(), CardVariant::Genshin);
    assert_eq!(task.get_current(), 0);
    assert_eq!(task.get_total(), 0);
    assert_eq!(task.get_progress(), 0);
    assert_eq!(task.get_status(), TaskStatus::PreparingTransition);
    assert!(!task.is_finished());
}

#[test]
fn progress_never_regresses_across_polls() {
    let mut task = started_diff();
    task.observe(&PollSample { current: 40, total: 100, status: TaskStatus::Downloading });
    assert_eq!(task.get_current(), 40);
    assert_eq!(task.get_total(), 100);

    // a regressing sample leaves the reported values where they were
    task.observe(&PollSample { current: 10, total: 50, status: TaskStatus::Downloading });
    assert_eq!(task.get_current(), 40);
    assert_eq!(task.get_total(), 100);

    task.observe(&PollSample { current: 90, total: 100, status: TaskStatus::Unpacking });
    assert_eq!(task.get_current(), 90);
    assert_eq!(task.get_progress(), 900);
}

#[test]
fn status_never_steps_backwards() {
    let mut task = started_diff();
    task.observe(&PollSample { current: 1, total: 4, status: TaskStatus::Unpacking });
    assert_eq!(task.get_status(), TaskStatus::Unpacking);

    task.observe(&PollSample { current: 2, total: 4, status: TaskStatus::Downloading });
    assert_eq!(task.get_status(), TaskStatus::Unpacking);

    task.observe(&PollSample { current: 4, total: 4, status: TaskStatus::Finished });
    assert_eq!(task.get_status(), TaskStatus::Finished);
    assert!(task.is_finished());
}

#[test]
fn status_outside_the_kind_subsequence_is_ignored() {
    let mut task = QueuedTask::DownloadComponent {
        variant: CardVariant::Dxvk,
        title: String::from("DXVK"),
        author: String::from("doitsujin"),
    }
        .resolve(ResolveOutcome::Started)
        .unwrap();
    assert_eq!(task.get_status(), TaskStatus::Downloading);

    // a component download never applies hdiff patches
    task.observe(&PollSample { current: 1, total: 2, status: TaskStatus::ApplyingHdiffPatches });
    assert_eq!(task.get_status(), TaskStatus::Downloading);

    task.observe(&PollSample { current: 2, total: 2, status: TaskStatus::Unpacking });
    assert_eq!(task.get_status(), TaskStatus::Unpacking);
}

#[test]
fn each_kind_starts_at_its_own_phase() {
    assert_eq!(initial_status(TaskKind::GameDiffInstall), TaskStatus::PreparingTransition);
    assert_eq!(initial_status(TaskKind::ComponentDownload), TaskStatus::Downloading);
    assert_eq!(initial_status(TaskKind::PrefixCreation), TaskStatus::CreatingPrefix);
}

#[test]
fn kind_subsequences_contain_their_own_phases_only() {
    assert!(status_allowed(TaskKind::GameDiffInstall, TaskStatus::ApplyingHdiffPatches));
    assert!(!status_allowed(TaskKind::GameDiffInstall, TaskStatus::CreatingPrefix));
    assert!(status_allowed(TaskKind::ComponentDownload, TaskStatus::Unpacking));
    assert!(!status_allowed(TaskKind::ComponentDownload, TaskStatus::PreparingTransition));
    assert!(status_allowed(TaskKind::PrefixCreation, TaskStatus::InstallingFonts));
    assert!(!status_allowed(TaskKind::PrefixCreation, TaskStatus::Downloading));
    assert!(status_allowed(TaskKind::GameDiffInstall, TaskStatus::Finished));
    assert!(status_allowed(TaskKind::ComponentDownload, TaskStatus::Finished));
    assert!(status_allowed(TaskKind::PrefixCreation, TaskStatus::Finished));
}

#[test]
fn diff_adapter_maps_every_phase_in_order() {
    let stages = [
        DiffUpdateStage::PreparingTransition,
        DiffUpdateStage::Downloading,
        DiffUpdateStage::Unpacking,
        DiffUpdateStage::FinishingTransition,
        DiffUpdateStage::ApplyingHdiffPatches,
        DiffUpdateStage::DeletingObsoleteFiles,
        DiffUpdateStage::Finished,
    ];
    let mut last: u8 = 0;
    for stage in stages {
        let status = stage.as_status();
        assert!(status_allowed(TaskKind::GameDiffInstall, status));
        assert!(status.stage_index() >= last);
        last = status.stage_index();
    }
    assert_eq!(DiffUpdateStage::ApplyingHdiffPatches.as_status(), TaskStatus::ApplyingHdiffPatches);
    assert_eq!(DiffUpdateStage::Finished.as_status(), TaskStatus::Finished);
}

#[test]
fn component_and_prefix_adapters_map_in_order() {
    assert_eq!(ComponentDownloadStage::Downloading.as_status(), TaskStatus::Downloading);
    assert_eq!(ComponentDownloadStage::Unpacking.as_status(), TaskStatus::Unpacking);
    assert_eq!(ComponentDownloadStage::Finished.as_status(), TaskStatus::Finished);
    assert_eq!(PrefixCreationStage::CreatingPrefix.as_status(), TaskStatus::CreatingPrefix);
    assert_eq!(PrefixCreationStage::InstallingFonts.as_status(), TaskStatus::InstallingFonts);
    assert_eq!(PrefixCreationStage::Finished.as_status(), TaskStatus::Finished);
}

#[test]
fn task_metadata_defaults_derive_from_variant() {
    let diff = QueuedTask::DownloadDiff { variant: CardVariant::Genshin };
    assert_eq!(diff.get_title(), "Genshin Impact");
    assert_eq!(diff.get_author(), "HoYoverse");
    assert_eq!(diff.get_kind(), TaskKind::GameDiffInstall);

    let prefix = QueuedTask::CreatePrefix {
        path: String::from("/home/user/.wine"),
        install_corefonts: true,
    };
    assert_eq!(prefix.get_variant(), CardVariant::WinePrefix);
    assert_eq!(prefix.get_title(), "Wine prefix");
    assert_eq!(prefix.get_kind(), TaskKind::PrefixCreation);
}

#[test]
fn component_metadata_overrides_variant_defaults() {
    let component = QueuedTask::DownloadComponent {
        variant: CardVariant::Wine,
        title: String::from("Wine-GE-Proton 8-26"),
        author: String::from("GloriousEggroll"),
    };
    assert_eq!(component.get_variant(), CardVariant::Wine);
    assert_eq!(component.get_title(), "Wine-GE-Proton 8-26");
    assert_eq!(component.get_author(), "GloriousEggroll");
}

#[test]
fn refused_resolution_returns_resolution_error() {
    let result = QueuedTask::DownloadDiff { variant: CardVariant::Genshin }
        .resolve(ResolveOutcome::Refused { message: String::from("queued diff cannot be installed") });
    match result {
        Err(TaskError::Resolution { message }) => {
            assert_eq!(message, "queued diff cannot be installed");
        },
        other => panic!("expected a resolution error, got {:?}", other),
    }
}

#[test]
fn resolved_task_keeps_queued_metadata() {
    let task = QueuedTask::DownloadComponent {
        variant: CardVariant::Wine,
        title: String::from("Wine-GE-Proton"),
        author: String::from("GloriousEggroll"),
    }
        .resolve(ResolveOutcome::Started)
        .unwrap();
    assert_eq!(task.get_variant(), CardVariant::Wine);
    assert_eq!(task.get_title(), "Wine-GE-Proton");
    assert_eq!(task.get_author(), "GloriousEggroll");
    assert_eq!(task.get_status(), TaskStatus::Downloading);
}

#[test]
fn error_messages_are_exposed() {
    let resolution = TaskError::Resolution { message: String::from("no applicable update") };
    assert_eq!(resolution.message(), "no applicable update");
    let query = TaskError::StatusQuery { message: String::from("updater crashed") };
    assert_eq!(query.message(), "updater crashed");
}

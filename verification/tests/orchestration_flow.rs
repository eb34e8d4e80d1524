use putioarr::orchestration::{
    conclude_download, download_outcome, handle_message, import_completion, import_watch_step,
    target_work, DownloadDoneStatus, DownloadWork, ImportAction, LocalEntry, SeedingAction,
    SeedingPhase, SeedingWatcher, WorkerStep,
};
use putioarr::putio::PutIOTransferStatus;
use putioarr::transfer::{
    FileKind, FileNode, TargetType, Transfer, TransferMessage,
};

fn leaf(id: u64, name: &str, kind: FileKind, url: Option<&str>) -> FileNode {
    FileNode {
        id,
        name: name.to_string(),
        kind,
        url: url.map(|u| u.to_string()),
        children: Vec::new(),
    }
}

fn season_tree() -> FileNode {
    FileNode {
        id: 100,
        name: "Show/Season 01".to_string(),
        kind: FileKind::Folder,
        url: None,
        children: vec![
            leaf(101, "episode1.mkv", FileKind::Video, Some("https://example/dl/101")),
            leaf(102, "episode2.mkv", FileKind::Video, Some("https://example/dl/102")),
            leaf(103, "episode1.srt", FileKind::Other, None),
            FileNode {
                id: 104,
                name: "sample".to_string(),
                kind: FileKind::Folder,
                url: None,
                children: vec![leaf(105, "sample.mkv", FileKind::Video, Some("u"))],
            },
        ],
    }
}

fn season_transfer() -> Transfer {
    Transfer {
        name: "Show Season 1".to_string(),
        file_id: Some(100),
        hash: Some("abcd1234".to_string()),
        transfer_id: 42,
        targets: None,
    }
}

fn skip_list() -> Vec<String> {
    vec!["sample".to_string(), "extras".to_string()]
}

#[test]
fn events_route_to_their_worker_steps() {
    let step = handle_message(TransferMessage::QueuedForDownload(season_transfer()));
    assert!(matches!(step, WorkerStep::StartDownload(t) if t.transfer_id == 42));
    let step = handle_message(TransferMessage::Downloaded(season_transfer()));
    assert!(matches!(step, WorkerStep::SpawnImportWatcher(t) if t.transfer_id == 42));
    let step = handle_message(TransferMessage::Imported(season_transfer()));
    assert!(matches!(step, WorkerStep::SpawnSeedingWatcher(t) if t.transfer_id == 42));
}

#[test]
fn all_successes_emit_downloaded_with_targets() {
    let transfer = season_transfer();
    let targets = transfer.get_download_targets(&season_tree(), &skip_list());
    assert_eq!(targets.len(), 3);
    let outcomes: Vec<DownloadDoneStatus> =
        targets.iter().map(|t| DownloadDoneStatus::Success(t.clone())).collect();
    let msg = conclude_download(transfer, targets.clone(), &outcomes);
    match msg {
        Some(TransferMessage::Downloaded(t)) => {
            assert_eq!(t.transfer_id, 42);
            assert_eq!(t.targets.as_ref().unwrap().len(), 3);
            assert_eq!(t.targets.unwrap(), targets);
        },
        _ => panic!("expected Downloaded"),
    }
}

#[test]
fn one_failure_suppresses_downloaded() {
    // Target 2 of 3 fails while 1 and 3 succeed: no Downloaded event.
    let transfer = season_transfer();
    let targets = transfer.get_download_targets(&season_tree(), &skip_list());
    let outcomes = vec![
        DownloadDoneStatus::Success(targets[0].clone()),
        DownloadDoneStatus::Failed(targets[1].clone()),
        DownloadDoneStatus::Success(targets[2].clone()),
    ];
    let msg = conclude_download(transfer, targets, &outcomes);
    assert!(msg.is_none());
}

#[test]
fn empty_target_list_counts_as_all_success() {
    let transfer = season_transfer();
    let msg = conclude_download(transfer, Vec::new(), &Vec::new());
    assert!(matches!(msg, Some(TransferMessage::Downloaded(_))));
}

#[test]
fn target_work_follows_target_kind() {
    let transfer = season_transfer();
    let targets = transfer.get_download_targets(&season_tree(), &skip_list());
    assert!(matches!(
        target_work(&targets[0]),
        DownloadWork::MakeDirectory(p) if p == "Show/Season 01"
    ));
    assert!(matches!(
        target_work(&targets[1]),
        DownloadWork::FetchFile { from, to }
            if from == "https://example/dl/101" && to == "Show/Season 01/episode1.mkv"
    ));
    let mut unfetchable = targets[1].clone();
    unfetchable.from = None;
    assert!(matches!(target_work(&unfetchable), DownloadWork::Unfetchable));
}

#[test]
fn outcome_reports_the_io_result() {
    let transfer = season_transfer();
    let targets = transfer.get_download_targets(&season_tree(), &skip_list());
    assert!(matches!(
        download_outcome(targets[0].clone(), true),
        DownloadDoneStatus::Success(_)
    ));
    assert!(matches!(
        download_outcome(targets[0].clone(), false),
        DownloadDoneStatus::Failed(_)
    ));
}

#[test]
fn import_watcher_polls_then_deletes_top_level() {
    let mut transfer = season_transfer();
    let targets = transfer.get_download_targets(&season_tree(), &skip_list());
    transfer.targets = Some(targets);

    // Not yet imported: keep polling, whatever the filesystem would say.
    assert!(matches!(
        import_watch_step(&transfer, false, LocalEntry::IsDirectory),
        ImportAction::Sleep
    ));
    // First positive answer: the top-level directory is deleted recursively.
    assert!(matches!(
        import_watch_step(&transfer, true, LocalEntry::IsDirectory),
        ImportAction::DeleteDirectory(p) if p == "Show/Season 01"
    ));
    // A plain file top level would be deleted as a file.
    assert!(matches!(
        import_watch_step(&transfer, true, LocalEntry::IsFile),
        ImportAction::DeleteFile(p) if p == "Show/Season 01"
    ));
    // Anything else is a transfer-scoped failure.
    assert!(matches!(
        import_watch_step(&transfer, true, LocalEntry::Missing),
        ImportAction::Abort
    ));
    assert!(matches!(
        import_watch_step(&transfer, true, LocalEntry::Unknown),
        ImportAction::Abort
    ));

    // After the deletion the watcher feeds Imported back into the pipeline.
    let msg = import_completion(transfer);
    assert!(matches!(msg, TransferMessage::Imported(t) if t.transfer_id == 42));
}

#[test]
fn import_watcher_without_top_level_aborts() {
    let mut transfer = season_transfer();
    transfer.targets = Some(Vec::new());
    assert!(matches!(
        import_watch_step(&transfer, true, LocalEntry::IsDirectory),
        ImportAction::Abort
    ));
    let unplanned = season_transfer();
    assert!(matches!(
        import_watch_step(&unplanned, true, LocalEntry::IsDirectory),
        ImportAction::Abort
    ));
}

#[test]
fn seeding_watcher_polls_then_cleans_up_in_order() {
    // Remote status Seeding, Seeding, Completed: two sleeps, then removal,
    // then file deletion whose failure does not prevent termination.
    let transfer = season_transfer();
    let mut watcher = SeedingWatcher::new(&transfer);
    assert_eq!(watcher.phase, SeedingPhase::Watching);

    assert_eq!(watcher.on_status(PutIOTransferStatus::Seeding), SeedingAction::Sleep);
    assert_eq!(watcher.on_status(PutIOTransferStatus::Seeding), SeedingAction::Sleep);
    assert_eq!(
        watcher.on_status(PutIOTransferStatus::Completed),
        SeedingAction::RemoveTransfer(42)
    );
    assert_eq!(watcher.phase, SeedingPhase::RemovingTransfer);
    assert_eq!(watcher.on_transfer_removed(true), SeedingAction::DeleteFile(100));
    assert_eq!(watcher.phase, SeedingPhase::DeletingFile);
    assert_eq!(watcher.on_file_deleted(false), SeedingAction::Terminate);
    assert_eq!(watcher.phase, SeedingPhase::Done);
}

#[test]
fn seeding_watcher_fails_when_removal_fails() {
    let transfer = season_transfer();
    let mut watcher = SeedingWatcher::new(&transfer);
    assert_eq!(
        watcher.on_status(PutIOTransferStatus::Error),
        SeedingAction::RemoveTransfer(42)
    );
    assert_eq!(watcher.on_transfer_removed(false), SeedingAction::Fail);
    assert_eq!(watcher.phase, SeedingPhase::Done);
}

//! The orchestration worker's state machine and the two per-transfer
//! watchers.
//!
//! N identical workers pull pipeline events from one shared queue. The
//! decisions are here, verified; the unverified shell owns the queues, the
//! reply channels, the timers and the spawning. Per event: a queued transfer
//! is planned and its targets fanned out to the download workers; once every
//! target's outcome is in, `Downloaded` is emitted exactly when all of them
//! succeeded; `Downloaded` spawns an import watcher; `Imported` spawns a
//! seeding watcher.

use vstd::prelude::*;

use crate::putio::PutIOTransferStatus;
use crate::transfer::{
    spec_top_target, DownloadTarget, TargetType, Transfer, TransferMessage,
};

verus! {

/// Per-target outcome a download worker reports on the target's private
/// reply channel. Exactly one outcome is sent per dispatched target.
#[derive(Debug)]
pub enum DownloadDoneStatus {
    Success(DownloadTarget),
    Failed(DownloadTarget),
}

/// What the orchestration worker does with one pipeline event.
#[derive(Debug)]
pub enum WorkerStep {
    /// Plan the transfer's targets and fan them out to the download workers.
    StartDownload(Transfer),
    /// Fire-and-forget an import watcher for the transfer.
    SpawnImportWatcher(Transfer),
    /// Fire-and-forget a seeding watcher for the transfer.
    SpawnSeedingWatcher(Transfer),
}

/// Routes one pipeline event to the worker's action for it.
pub fn handle_message(msg: TransferMessage) -> (r: WorkerStep)
    ensures
        (msg matches TransferMessage::QueuedForDownload(t) ==> r == WorkerStep::StartDownload(t)),
        (msg matches TransferMessage::Downloaded(t) ==> r == WorkerStep::SpawnImportWatcher(t)),
        (msg matches TransferMessage::Imported(t) ==> r == WorkerStep::SpawnSeedingWatcher(t)),
{
    match msg {
        TransferMessage::QueuedForDownload(t) => WorkerStep::StartDownload(t),
        TransferMessage::Downloaded(t) => WorkerStep::SpawnImportWatcher(t),
        TransferMessage::Imported(t) => WorkerStep::SpawnSeedingWatcher(t),
    }
}

/// Every outcome of the fan-in reports success.
pub open spec fn spec_all_success(outcomes: Seq<DownloadDoneStatus>) -> bool {
    forall|i: int| 0 <= i < outcomes.len() ==> (#[trigger] outcomes[i]) is Success
}

/// Fan-in decision after every dispatched target's outcome has arrived:
/// `Downloaded`, with the targets attached to the transfer, is emitted if
/// and only if every outcome is a success; one failure suppresses it and the
/// transfer is dropped from the pipeline.
pub fn conclude_download(
    t: Transfer,
    targets: Vec<DownloadTarget>,
    outcomes: &Vec<DownloadDoneStatus>,
) -> (r: Option<TransferMessage>)
    ensures
        r is Some <==> spec_all_success(outcomes@),
        spec_all_success(outcomes@) ==> r == Option::Some(
            TransferMessage::Downloaded(
                Transfer {
                    name: t.name,
                    file_id: t.file_id,
                    hash: t.hash,
                    transfer_id: t.transfer_id,
                    targets: Option::Some(targets),
                },
            ),
        ),
{
    let mut i: usize = 0;
    while i < outcomes.len()
        invariant
            0 <= i <= outcomes@.len(),
            forall|j: int| 0 <= j < i ==> (#[trigger] outcomes@[j]) is Success,
        decreases outcomes@.len() - i,
    {
        match &outcomes[i] {
            DownloadDoneStatus::Success(_) => {},
            DownloadDoneStatus::Failed(_) => {
                return Option::None;
            },
        }
        i = i + 1;
    }
    Option::Some(
        TransferMessage::Downloaded(
            Transfer {
                name: t.name,
                file_id: t.file_id,
                hash: t.hash,
                transfer_id: t.transfer_id,
                targets: Option::Some(targets),
            },
        ),
    )
}

/// The unit of local I/O a download worker performs for one target.
#[derive(Debug)]
pub enum DownloadWork {
    /// Ensure the destination directory exists; "already exists" counts as
    /// success.
    MakeDirectory(String),
    /// Stream the source to the destination path, creating parents as
    /// needed.
    FetchFile { from: String, to: String },
    /// A file target without a resolved source; nothing can be fetched.
    Unfetchable,
}

/// How a work item relates to the target it was derived from.
pub open spec fn spec_work_for(r: DownloadWork, t: crate::transfer::SpecTarget) -> bool {
    match r {
        DownloadWork::MakeDirectory(p) => t.target_type == TargetType::Directory && p@ == t.to,
        DownloadWork::FetchFile { from, to } => t.target_type == TargetType::File && t.from
            == Option::Some(from@) && to@ == t.to,
        DownloadWork::Unfetchable => t.target_type == TargetType::File && t.from is None,
    }
}

/// The I/O a download worker owes one dispatched target.
pub fn target_work(target: &DownloadTarget) -> (r: DownloadWork)
    ensures
        spec_work_for(r, target@),
{
    match target.target_type {
        TargetType::Directory => DownloadWork::MakeDirectory(target.to.clone()),
        TargetType::File => match &target.from {
            Option::Some(from) => DownloadWork::FetchFile {
                from: from.clone(),
                to: target.to.clone(),
            },
            Option::None => DownloadWork::Unfetchable,
        },
    }
}

/// The outcome a worker reports for a target after performing its work:
/// success exactly when the I/O succeeded.
pub fn download_outcome(target: DownloadTarget, ok: bool) -> (r: DownloadDoneStatus)
    ensures
        ok ==> r == DownloadDoneStatus::Success(target),
        !ok ==> r == DownloadDoneStatus::Failed(target),
{
    if ok {
        DownloadDoneStatus::Success(target)
    } else {
        DownloadDoneStatus::Failed(target)
    }
}

/// What a stat of the top-level local path reported.
#[derive(Debug, Clone, Copy, PartialEq, Eq, Structural)]
pub enum LocalEntry {
    /// The path does not exist, or could not be stat'ed.
    Missing,
    IsFile,
    IsDirectory,
    /// Something else (a special file).
    Unknown,
}

/// One decision of the import watcher's poll loop.
#[derive(Debug)]
pub enum ImportAction {
    /// Not imported yet: sleep one polling interval and ask again.
    Sleep,
    /// Imported and the top-level path is a regular file: delete it.
    DeleteFile(String),
    /// Imported and the top-level path is a directory: delete it
    /// recursively.
    DeleteDirectory(String),
    /// No top-level target, or the path is missing or of an unexpected kind:
    /// a transfer-scoped failure that aborts only this watcher.
    Abort,
}

/// The import watcher's decision, given the import oracle's answer and (once
/// imported) what the stat of the transfer's top-level path reported. The
/// local artifact is only ever deleted after a positive import answer.
pub fn import_watch_step(t: &Transfer, imported: bool, entry: LocalEntry) -> (r: ImportAction)
    ensures
        !imported ==> r == ImportAction::Sleep,
        imported ==> match spec_top_target(t@) {
            Option::Some(top) => match entry {
                LocalEntry::IsDirectory => r matches ImportAction::DeleteDirectory(p) && p@
                    == top.to,
                LocalEntry::IsFile => r matches ImportAction::DeleteFile(p) && p@ == top.to,
                LocalEntry::Missing => r == ImportAction::Abort,
                LocalEntry::Unknown => r == ImportAction::Abort,
            },
            Option::None => r == ImportAction::Abort,
        },
{
    if !imported {
        return ImportAction::Sleep;
    }
    match t.find_top_level() {
        Option::Some(top) => match entry {
            LocalEntry::IsDirectory => ImportAction::DeleteDirectory(top.to),
            LocalEntry::IsFile => ImportAction::DeleteFile(top.to),
            LocalEntry::Missing => ImportAction::Abort,
            LocalEntry::Unknown => ImportAction::Abort,
        },
        Option::None => ImportAction::Abort,
    }
}

/// After the deletion succeeded, the watcher feeds `Imported` back into the
/// pipeline and terminates.
pub fn import_completion(t: Transfer) -> (r: TransferMessage)
    ensures
        r == TransferMessage::Imported(t),
{
    TransferMessage::Imported(t)
}

/// Where the seeding watcher stands for its transfer.
#[derive(Debug, Clone, Copy, PartialEq, Eq, Structural)]
pub enum SeedingPhase {
    /// Polling the remote status until it leaves `Seeding`.
    Watching,
    /// Issuing the remote transfer removal.
    RemovingTransfer,
    /// Issuing the remote file deletion (best effort).
    DeletingFile,
    /// Terminated; no further event is emitted.
    Done,
}

/// The remote call or pause the seeding watcher performs next.
#[derive(Debug, Clone, Copy, PartialEq, Eq, Structural)]
pub enum SeedingAction {
    /// Still seeding: sleep one polling interval and ask again.
    Sleep,
    /// Remove this remote transfer.
    RemoveTransfer(u64),
    /// Delete this remote file.
    DeleteFile(u64),
    /// The removal failed: the watcher ends with an error.
    Fail,
    /// The watcher is finished; the pipeline's terminal stage.
    Terminate,
}

/// The seeding watcher of one transfer that reached `Imported`: polls the
/// remote status until the remote side stops seeding, then removes the
/// remote transfer, then deletes the remote file, in that order.
pub struct SeedingWatcher {
    pub phase: SeedingPhase,
    pub transfer_id: u64,
    pub file_id: u64,
}

impl SeedingWatcher {
    /// A watcher for this transfer. The transfer was downloaded, so its root
    /// file id is present.
    pub fn new(t: &Transfer) -> (r: Self)
        requires
            t.file_id is Some,
        ensures
            r.phase == SeedingPhase::Watching,
            r.transfer_id == t.transfer_id,
            r.file_id == t.file_id.unwrap(),
    {
        SeedingWatcher {
            phase: SeedingPhase::Watching,
            transfer_id: t.transfer_id,
            file_id: match t.file_id {
                Option::Some(id) => id,
                Option::None => 0,  // unreachable: the requires rules it out
            },
        }
    }

    /// One poll of the remote status: keep sleeping while the remote side
    /// still seeds; on any other status move to removing the remote
    /// transfer.
    pub fn on_status(&mut self, status: PutIOTransferStatus) -> (r: SeedingAction)
        requires
            old(self).phase == SeedingPhase::Watching,
        ensures
            final(self).transfer_id == old(self).transfer_id,
            final(self).file_id == old(self).file_id,
            status == PutIOTransferStatus::Seeding ==> final(self).phase == SeedingPhase::Watching
                && r == SeedingAction::Sleep,
            status != PutIOTransferStatus::Seeding ==> final(self).phase
                == SeedingPhase::RemovingTransfer && r == SeedingAction::RemoveTransfer(
                old(self).transfer_id,
            ),
    {
        if status == PutIOTransferStatus::Seeding {
            SeedingAction::Sleep
        } else {
            self.phase = SeedingPhase::RemovingTransfer;
            SeedingAction::RemoveTransfer(self.transfer_id)
        }
    }

    /// The removal call came back: on success move on to deleting the remote
    /// file; its failure is an error for this watcher, with nothing further
    /// to clean up safely.
    pub fn on_transfer_removed(&mut self, ok: bool) -> (r: SeedingAction)
        requires
            old(self).phase == SeedingPhase::RemovingTransfer,
        ensures
            final(self).transfer_id == old(self).transfer_id,
            final(self).file_id == old(self).file_id,
            ok ==> final(self).phase == SeedingPhase::DeletingFile && r
                == SeedingAction::DeleteFile(old(self).file_id),
            !ok ==> final(self).phase == SeedingPhase::Done && r == SeedingAction::Fail,
    {
        if ok {
            self.phase = SeedingPhase::DeletingFile;
            SeedingAction::DeleteFile(self.file_id)
        } else {
            self.phase = SeedingPhase::Done;
            SeedingAction::Fail
        }
    }

    /// The file deletion came back: the watcher terminates either way, a
    /// failure being logged only (best effort).
    pub fn on_file_deleted(&mut self, _ok: bool) -> (r: SeedingAction)
        requires
            old(self).phase == SeedingPhase::DeletingFile,
        ensures
            final(self).transfer_id == old(self).transfer_id,
            final(self).file_id == old(self).file_id,
            final(self).phase == SeedingPhase::Done,
            r == SeedingAction::Terminate,
    {
        self.phase = SeedingPhase::Done;
        SeedingAction::Terminate
    }
}

} // verus!

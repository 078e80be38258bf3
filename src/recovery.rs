//! Recovery from the automatic backup, and snapshots taken on request.
//!
//! A restore checks that the backup parses before anything is touched,
//! snapshots a present (possibly broken) file beside it, and only then copies
//! the backup over the file. Snapshots are never removed.
use vstd::prelude::*;

use crate::messages::{decimal, with_number, SaveResult};
use crate::store::{backup_path, backup_path_of};

verus! {

/// Where a restore keeps the file it replaces.
pub open spec fn broken_path(path: Seq<char>) -> Seq<char> {
    path + ".broken"@
}

/// Where a snapshot taken at `secs` seconds of the Unix epoch goes.
pub open spec fn manual_backup_path(path: Seq<char>, secs: u64) -> Seq<char> {
    path + ".manual_backup_"@ + decimal(secs as nat)
}

pub fn broken_path_of(path: &String) -> (r: String)
    ensures
        r@ == broken_path(path@),
{
    path.clone().concat(".broken")
}

pub fn manual_backup_path_of(path: &String, secs: u64) -> (r: String)
    ensures
        r@ == manual_backup_path(path@, secs),
{
    let prefix = path.clone().concat(".manual_backup_");
    let r = with_number(prefix.as_str(), secs, "");
    assert(r@ =~= manual_backup_path(path@, secs)) by {
        reveal_strlit("");
    };
    r
}

/// What looking at the backup file gave.
pub enum BackupCheck {
    Missing,
    Unreadable { message: String },
    /// It is there but does not parse as a configuration.
    Corrupt,
    Valid,
}

pub ghost enum BackupCheckView {
    Missing,
    Unreadable(Seq<char>),
    Corrupt,
    Valid,
}

impl View for BackupCheck {
    type V = BackupCheckView;

    open spec fn view(&self) -> BackupCheckView {
        match self {
            BackupCheck::Missing => BackupCheckView::Missing,
            BackupCheck::Unreadable { message } => BackupCheckView::Unreadable(message@),
            BackupCheck::Corrupt => BackupCheckView::Corrupt,
            BackupCheck::Valid => BackupCheckView::Valid,
        }
    }
}

#[derive(Clone, Copy, Debug, PartialEq, Eq, Structural)]
pub enum RestoreStage {
    /// The present file to be copied to its snapshot path.
    Snapshotting,
    /// The backup to be copied over the file.
    CopyingBack,
}

pub ghost struct RestoreView {
    pub stage: RestoreStage,
    pub path: Seq<char>,
}

/// A restore in progress.
pub struct RestoreTxn {
    stage: RestoreStage,
    path: String,
}

impl View for RestoreTxn {
    type V = RestoreView;

    closed spec fn view(&self) -> RestoreView {
        RestoreView { stage: self.stage, path: self.path@ }
    }
}

pub enum RestoreError {
    ReadBackup { message: String },
    Corrupt,
    Snapshot { message: String },
    Restore { message: String },
}

pub ghost enum RestoreErrorView {
    ReadBackup(Seq<char>),
    Corrupt,
    Snapshot(Seq<char>),
    Restore(Seq<char>),
}

impl View for RestoreError {
    type V = RestoreErrorView;

    open spec fn view(&self) -> RestoreErrorView {
        match self {
            RestoreError::ReadBackup { message } => RestoreErrorView::ReadBackup(message@),
            RestoreError::Corrupt => RestoreErrorView::Corrupt,
            RestoreError::Snapshot { message } => RestoreErrorView::Snapshot(message@),
            RestoreError::Restore { message } => RestoreErrorView::Restore(message@),
        }
    }
}

/// The next copy of a restore, or its end: `Ok(false)` when there was no
/// backup to restore, `Ok(true)` once restored.
pub enum RestoreStep {
    Next(RestoreTxn),
    Finished(Result<bool, RestoreError>),
}

pub ghost enum RestoreStepView {
    Next(RestoreView),
    Finished(Result<bool, RestoreErrorView>),
}

impl View for RestoreStep {
    type V = RestoreStepView;

    open spec fn view(&self) -> RestoreStepView {
        match self {
            RestoreStep::Next(t) => RestoreStepView::Next(t@),
            RestoreStep::Finished(Ok(b)) => RestoreStepView::Finished(Ok(*b)),
            RestoreStep::Finished(Err(e)) => RestoreStepView::Finished(Err(e@)),
        }
    }
}

pub open spec fn restore_start(path: Seq<char>, check: BackupCheckView, file_exists: bool) -> RestoreStepView {
    match check {
        BackupCheckView::Missing => RestoreStepView::Finished(Ok(false)),
        BackupCheckView::Unreadable(m) => RestoreStepView::Finished(Err(RestoreErrorView::ReadBackup(m))),
        BackupCheckView::Corrupt => RestoreStepView::Finished(Err(RestoreErrorView::Corrupt)),
        BackupCheckView::Valid => if file_exists {
            RestoreStepView::Next(RestoreView { stage: RestoreStage::Snapshotting, path })
        } else {
            RestoreStepView::Next(RestoreView { stage: RestoreStage::CopyingBack, path })
        },
    }
}

pub open spec fn snapshot_step(t: RestoreView, copied: Result<(), Seq<char>>) -> RestoreStepView {
    match copied {
        Ok(()) => RestoreStepView::Next(RestoreView { stage: RestoreStage::CopyingBack, ..t }),
        Err(m) => RestoreStepView::Finished(Err(RestoreErrorView::Snapshot(m))),
    }
}

pub open spec fn copy_back_step(copied: Result<(), Seq<char>>) -> RestoreStepView {
    match copied {
        Ok(()) => RestoreStepView::Finished(Ok(true)),
        Err(m) => RestoreStepView::Finished(Err(RestoreErrorView::Restore(m))),
    }
}

pub open spec fn result_view(r: Result<(), String>) -> Result<(), Seq<char>> {
    match r {
        Ok(()) => Ok(()),
        Err(m) => Err(m@),
    }
}

/// Starts a restore of the file at `path`, given what the backup check
/// found and whether the file is there.
pub fn begin_restore(path: String, check: BackupCheck, file_exists: bool) -> (r: RestoreStep)
    ensures
        r@ == restore_start(path@, check@, file_exists),
{
    match check {
        BackupCheck::Missing => RestoreStep::Finished(Ok(false)),
        BackupCheck::Unreadable { message } => RestoreStep::Finished(
            Err(RestoreError::ReadBackup { message }),
        ),
        BackupCheck::Corrupt => RestoreStep::Finished(Err(RestoreError::Corrupt)),
        BackupCheck::Valid => {
            let stage = if file_exists {
                RestoreStage::Snapshotting
            } else {
                RestoreStage::CopyingBack
            };
            RestoreStep::Next(RestoreTxn { stage, path })
        },
    }
}

impl RestoreTxn {
    pub fn stage(&self) -> (r: RestoreStage)
        ensures
            r == self@.stage,
    {
        self.stage
    }

    /// The file the current copy reads.
    pub fn source(&self) -> (r: String)
        ensures
            r@ == match self@.stage {
                RestoreStage::Snapshotting => self@.path,
                RestoreStage::CopyingBack => backup_path(self@.path),
            },
    {
        match self.stage {
            RestoreStage::Snapshotting => self.path.clone(),
            RestoreStage::CopyingBack => backup_path_of(&self.path),
        }
    }

    /// The file the current copy writes.
    pub fn target(&self) -> (r: String)
        ensures
            r@ == match self@.stage {
                RestoreStage::Snapshotting => broken_path(self@.path),
                RestoreStage::CopyingBack => self@.path,
            },
    {
        match self.stage {
            RestoreStage::Snapshotting => broken_path_of(&self.path),
            RestoreStage::CopyingBack => self.path.clone(),
        }
    }

    /// Takes the outcome of the snapshot copy: a failure ends the restore
    /// with the file untouched.
    pub fn on_snapshot(self, copied: Result<(), String>) -> (r: RestoreStep)
        requires
            self@.stage == RestoreStage::Snapshotting,
        ensures
            r@ == snapshot_step(self@, result_view(copied)),
    {
        match copied {
            Ok(()) => RestoreStep::Next(RestoreTxn { stage: RestoreStage::CopyingBack, path: self.path }),
            Err(message) => RestoreStep::Finished(Err(RestoreError::Snapshot { message })),
        }
    }

    /// Takes the outcome of copying the backup over the file.
    pub fn on_copied_back(self, copied: Result<(), String>) -> (r: RestoreStep)
        requires
            self@.stage == RestoreStage::CopyingBack,
        ensures
            r@ == copy_back_step(result_view(copied)),
    {
        match copied {
            Ok(()) => RestoreStep::Finished(Ok(true)),
            Err(message) => RestoreStep::Finished(Err(RestoreError::Restore { message })),
        }
    }
}

/// Files by their text.
pub type FilesView = Map<Seq<char>, Seq<char>>;

pub open spec fn copy_file(d: FilesView, from: Seq<char>, to: Seq<char>, copied: Result<(), Seq<char>>) -> FilesView {
    if copied is Ok {
        d.insert(to, d[from])
    } else {
        d
    }
}

/// A restore of `path` run to its end against the files `d`, given how the
/// two copies went: the result and the files afterwards.
pub open spec fn run_restore(
    path: Seq<char>,
    check: BackupCheckView,
    d: FilesView,
    snapshot: Result<(), Seq<char>>,
    copy_back: Result<(), Seq<char>>,
) -> (Result<bool, RestoreErrorView>, FilesView) {
    let back = |d1: FilesView| (
        copy_back_step(copy_back)->Finished_0,
        copy_file(d1, backup_path(path), path, copy_back),
    );
    match restore_start(path, check, d.contains_key(path)) {
        RestoreStepView::Finished(r) => (r, d),
        RestoreStepView::Next(t) => if t.stage == RestoreStage::Snapshotting {
            let d1 = copy_file(d, path, broken_path(path), snapshot);
            match snapshot_step(t, snapshot) {
                RestoreStepView::Finished(r) => (r, d1),
                RestoreStepView::Next(_) => back(d1),
            }
        } else {
            back(d)
        },
    }
}

/// A restore that succeeds leaves the file holding the backup's text and,
/// when a file was there, its former text in the snapshot; one that stops
/// early (no backup, a corrupt one, a failed snapshot) leaves the file as it
/// was.
pub proof fn lemma_restore_keeps_the_replaced_file(
    path: Seq<char>,
    check: BackupCheckView,
    d: FilesView,
    snapshot: Result<(), Seq<char>>,
    copy_back: Result<(), Seq<char>>,
)
    requires
        d.contains_key(backup_path(path)),
    ensures
        ({
            let (r, d2) = run_restore(path, check, d, snapshot, copy_back);
            &&& r == Ok::<bool, RestoreErrorView>(true) ==> d2[path] == d[backup_path(path)] && (
            d.contains_key(path) ==> d2[broken_path(path)] == d[path])
            &&& r != Ok::<bool, RestoreErrorView>(true) && !(r matches Err(RestoreErrorView::Restore(_)))
                ==> d2.contains_key(path) == d.contains_key(path) && (d.contains_key(path) ==> d2[path]
                == d[path])
            &&& !(check is Valid) ==> d2 == d
        }),
{
    reveal_strlit(".backup");
    reveal_strlit(".broken");
    assert(backup_path(path).len() != path.len());
    assert(broken_path(path).len() != path.len());
    assert(broken_path(path) != backup_path(path)) by {
        assert(broken_path(path)[path.len() + 2int] != backup_path(path)[path.len() + 2int]);
    }
}

impl RestoreStep {
    /// The answer shown when the restore ended without an error.
    pub fn restored_result(restored: bool) -> (r: SaveResult)
        ensures
            r.success == restored,
            r.message@ == if restored {
                "Configuration restored from backup successfully"@
            } else {
                "No backup file found"@
            },
    {
        if restored {
            SaveResult {
                success: true,
                message: String::from_str("Configuration restored from backup successfully"),
            }
        } else {
            SaveResult { success: false, message: String::from_str("No backup file found") }
        }
    }
}

/// The answer to a snapshot request: none is taken of a missing file.
pub fn manual_backup_result(file_exists: bool, target: &String) -> (r: SaveResult)
    ensures
        r.success == file_exists,
        r.message@ == if file_exists {
            "Manual backup created: "@ + target@
        } else {
            "Configuration file does not exist"@
        },
{
    if file_exists {
        SaveResult {
            success: true,
            message: String::from_str("Manual backup created: ").concat(target.as_str()),
        }
    } else {
        SaveResult { success: false, message: String::from_str("Configuration file does not exist") }
    }
}

} // verus!

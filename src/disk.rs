use vstd::prelude::*;

use crate::local::{Action, Event, Flow, LocalUpgrade, Outcome, Step, advanced, step_action};
use crate::version::Version;

verus! {

/// What an instance's data directory holds, as far as upgrades are concerned.
pub struct DataDir {
    /// The logical records that a dump carries and a restore brings back.
    pub records: Seq<int>,
    pub cert: Option<int>,
    pub key: Option<int>,
    /// The installed version recorded in the instance metadata, once written.
    pub info: Option<Version>,
    /// Whether the directory holds a backup record.
    pub backup_meta: bool,
}

/// The paths that one instance's upgrade touches.
pub struct Disk {
    pub marker: bool,
    pub data_dir: Option<DataDir>,
    pub backup_dir: Option<DataDir>,
    pub dump: Option<Seq<int>>,
}

pub open spec fn is_probe(a: Action) -> bool {
    a is ProbeMarker || a is ProbeBackupDir || a is ProbeBackupMeta
}

/// The true answer to a probe on disk `d`.
pub open spec fn probe_truth(d: Disk, a: Action) -> bool {
    match a {
        Action::ProbeMarker => d.marker,
        Action::ProbeBackupDir => d.backup_dir is Some,
        Action::ProbeBackupMeta => d.backup_dir matches Some(b) && b.backup_meta,
        _ => false,
    }
}

/// Whether action `a` can succeed on disk `d`.
pub open spec fn possible(d: Disk, a: Action) -> bool {
    match a {
        Action::DumpRunning | Action::SpawnAndDump | Action::WriteBackupMeta
        | Action::WriteInstanceInfo => d.data_dir is Some,
        Action::RenameDataToBackup => d.data_dir is Some && d.backup_dir is None,
        Action::SpawnAndRestore => d.data_dir is Some && d.dump is Some,
        Action::CopyTlsCert => d.data_dir is Some && (d.backup_dir matches Some(b) && b.cert is Some),
        Action::CopyTlsKey => d.data_dir is Some && (d.backup_dir matches Some(b) && b.key is Some),
        Action::RemoveUpgradeMarker => d.marker,
        Action::RenameBackupToData => d.backup_dir is Some && d.data_dir is None,
        Action::RemoveBackupMeta => d.data_dir matches Some(x) && x.backup_meta,
        _ => true,
    }
}

/// Event `ev` is one that the world can report for `m`'s action on disk `d`:
/// probes answer truthfully, and only possible actions succeed.
pub open spec fn agrees(m: LocalUpgrade, d: Disk, ev: Event) -> bool {
    let a = step_action(m.step);
    if is_probe(a) {
        ev matches Event::Found(b) ==> b == probe_truth(d, a)
    } else {
        ev is Succeeded ==> possible(d, a)
    }
}

/// What `m`'s action does to disk `d` when `ev` is reported. A failed action
/// leaves the disk as it was; a probe never changes it.
pub open spec fn effect(m: LocalUpgrade, d: Disk, ev: Event) -> Disk {
    let dd = d.data_dir->0;
    let bd = d.backup_dir->0;
    if !(ev is Succeeded) {
        d
    } else {
        match step_action(m.step) {
            Action::DumpRunning | Action::SpawnAndDump => Disk { dump: Some(dd.records), ..d },
            Action::WriteUpgradeMarker => Disk { marker: true, ..d },
            Action::WriteBackupMeta => Disk {
                data_dir: Some(DataDir { backup_meta: true, ..dd }),
                ..d
            },
            Action::RemoveBackupDir => Disk { backup_dir: None, ..d },
            Action::RenameDataToBackup => Disk { data_dir: None, backup_dir: d.data_dir, ..d },
            Action::CreateDataDir => if d.data_dir is None {
                Disk { data_dir: Some(empty_dir()), ..d }
            } else {
                d
            },
            Action::SpawnAndRestore => Disk {
                data_dir: Some(DataDir { records: d.dump->0, ..dd }),
                ..d
            },
            Action::WriteInstanceInfo => Disk {
                data_dir: Some(DataDir { info: Some(m.target), ..dd }),
                ..d
            },
            Action::CopyTlsCert => Disk { data_dir: Some(DataDir { cert: bd.cert, ..dd }), ..d },
            Action::CopyTlsKey => Disk { data_dir: Some(DataDir { key: bd.key, ..dd }), ..d },
            Action::RemoveUpgradeMarker => Disk { marker: false, ..d },
            Action::RemoveDataDir => Disk { data_dir: None, ..d },
            Action::RenameBackupToData => Disk { data_dir: d.backup_dir, backup_dir: None, ..d },
            Action::RemoveBackupMeta => Disk {
                data_dir: Some(DataDir { backup_meta: false, ..dd }),
                ..d
            },
            _ => d,
        }
    }
}

/// The machine and disk after the events `evs`, reported one by one.
pub open spec fn run(m: LocalUpgrade, d: Disk, evs: Seq<Event>) -> (LocalUpgrade, Disk)
    decreases evs.len(),
{
    if evs.len() == 0 {
        (m, d)
    } else {
        run(advanced(m, evs[0]), effect(m, d, evs[0]), evs.drop_first())
    }
}

/// Every event of `evs` is one the world can report at its point of the run.
pub open spec fn feasible(m: LocalUpgrade, d: Disk, evs: Seq<Event>) -> bool
    decreases evs.len(),
{
    evs.len() == 0 || (agrees(m, d, evs[0]) && feasible(
        advanced(m, evs[0]),
        effect(m, d, evs[0]),
        evs.drop_first(),
    ))
}

pub open spec fn empty_dir() -> DataDir {
    DataDir { records: Seq::empty(), cert: None, key: None, info: None, backup_meta: false }
}

pub open spec fn with_meta(o: DataDir) -> DataDir {
    DataDir { backup_meta: true, ..o }
}

pub open spec fn restored(o: DataDir) -> DataDir {
    DataDir { records: o.records, cert: None, key: None, info: None, backup_meta: false }
}

/// The data directory that a completed migration of `o` to `t` leaves.
pub open spec fn migrated(o: DataDir, t: Version) -> DataDir {
    DataDir { records: o.records, cert: o.cert, key: o.key, info: Some(t), backup_meta: false }
}

/// A disk before any upgrade has a live data directory.
pub open spec fn live(d0: Disk) -> bool {
    d0.data_dir is Some
}

/// The data directory without a backup record.
pub open spec fn unmarked(o: DataDir) -> DataDir {
    DataDir { backup_meta: false, ..o }
}

/// What the disk looks like at each step of each procedure, relative to the
/// disk `d0` that the upgrade started from.
pub open spec fn inv(m: LocalUpgrade, d: Disk, d0: Disk) -> bool {
    let o = d0.data_dir->0;
    let t = m.target;
    let dumped = Disk { dump: Some(o.records), ..d0 };
    let moved = Disk {
        marker: true,
        data_dir: None,
        backup_dir: Some(with_meta(o)),
        dump: Some(o.records),
    };
    let done = Disk { data_dir: Some(migrated(o, t)), ..moved };
    match m.flow {
        Flow::Compatible => match m.step {
            Step::Install | Step::WriteInfo | Step::Finished(Outcome::AlreadyUpToDate)
            | Step::Finished(Outcome::InstallFailed) | Step::Finished(
                Outcome::MetadataFailed,
            ) => d == d0,
            Step::RegisterService | Step::Restart | Step::Finished(Outcome::Upgraded)
            | Step::Finished(Outcome::RestartFailed) => d == Disk {
                data_dir: Some(DataDir { info: Some(t), ..o }),
                ..d0
            },
            _ => false,
        },
        Flow::Incompatible => match m.step {
            Step::CheckMarker | Step::Finished(Outcome::AlreadyInProgress) => d == d0,
            Step::Install | Step::StartServer | Step::PrepareManualRun | Step::DumpLive
            | Step::DumpSpawned | Step::Finished(Outcome::InstallFailed) => d == d0 && !d0.marker,
            Step::StopServer | Step::RecheckMarker | Step::WriteMarker => d == dumped
                && !d0.marker,
            Step::Finished(Outcome::DumpFailed) => !d0.marker && (d == d0 || d == dumped),
            Step::WriteBackupMeta => d == Disk { marker: true, ..dumped },
            Step::ProbeBackup | Step::RemoveStaleBackup => d == Disk {
                marker: true,
                data_dir: Some(with_meta(o)),
                ..dumped
            },
            Step::RenameData => d == Disk {
                marker: true,
                data_dir: Some(with_meta(o)),
                backup_dir: None,
                ..dumped
            },
            Step::Finished(Outcome::BackupFailed) => d.data_dir == Some(o) || d.data_dir == Some(
                with_meta(o),
            ),
            Step::CreateDataDir => d == moved,
            Step::PrepareRestoreRun | Step::Restore => d == Disk {
                data_dir: Some(empty_dir()),
                ..moved
            },
            Step::WriteInfo => d == Disk { data_dir: Some(restored(o)), ..moved },
            Step::CopyCert => d == Disk {
                data_dir: Some(DataDir { info: Some(t), ..restored(o) }),
                ..moved
            },
            Step::CopyKey => d == Disk {
                data_dir: Some(DataDir { cert: o.cert, info: Some(t), ..restored(o) }),
                ..moved
            },
            Step::RegisterService | Step::Restart | Step::RemoveMarker | Step::Finished(
                Outcome::RestartFailed,
            ) | Step::Finished(Outcome::MarkerRemovalFailed) => d == done,
            Step::Finished(Outcome::Upgraded) => d == Disk { marker: false, ..done },
            Step::Finished(Outcome::NeedsRevert) => d.marker && d.backup_dir == Some(
                with_meta(o),
            ),
            _ => false,
        },
        Flow::Revert => match m.step {
            Step::RevertCheckMarker => d.backup_dir == Some(with_meta(o)),
            Step::RevertCheckBackup | Step::RevertRemoveData => d.marker && d.backup_dir == Some(
                with_meta(o),
            ),
            Step::RevertRename => d.marker && d.data_dir is None && d.backup_dir == Some(
                with_meta(o),
            ),
            Step::RevertRemoveMeta => d.marker && d.data_dir == Some(with_meta(o))
                && d.backup_dir is None,
            Step::RevertRemoveMarker => d.marker && d.data_dir == Some(unmarked(o)),
            Step::Finished(Outcome::Reverted) => !d.marker && d.data_dir == Some(unmarked(o)),
            Step::Finished(Outcome::NothingToRevert) | Step::Finished(Outcome::NoBackup)
            | Step::Finished(Outcome::RevertFailed) => true,
            _ => false,
        },
    }
}

/// One reported event keeps the disk in the shape its step describes.
pub proof fn lemma_inv_step(m: LocalUpgrade, d: Disk, d0: Disk, ev: Event)
    requires
        live(d0),
        inv(m, d, d0),
        agrees(m, d, ev),
    ensures
        inv(advanced(m, ev), effect(m, d, ev), d0),
{
}

/// A run never changes the procedure or the versions, only the step.
pub proof fn lemma_run_keeps_versions(m: LocalUpgrade, d: Disk, evs: Seq<Event>)
    ensures
        run(m, d, evs).0.flow == m.flow,
        run(m, d, evs).0.source == m.source,
        run(m, d, evs).0.target == m.target,
    decreases evs.len(),
{
    if evs.len() > 0 {
        lemma_run_keeps_versions(advanced(m, evs[0]), effect(m, d, evs[0]), evs.drop_first());
    }
}

/// A procedure that has ended stays ended and touches nothing.
pub proof fn lemma_finished_stays(m: LocalUpgrade, d: Disk, evs: Seq<Event>)
    requires
        m.step is Finished,
    ensures
        run(m, d, evs) == (m, d),
    decreases evs.len(),
{
    if evs.len() > 0 {
        lemma_finished_stays(advanced(m, evs[0]), effect(m, d, evs[0]), evs.drop_first());
    }
}

/// Every feasible run keeps the disk in the shape its step describes.
pub proof fn lemma_inv_run(m: LocalUpgrade, d: Disk, d0: Disk, evs: Seq<Event>)
    requires
        live(d0),
        inv(m, d, d0),
        feasible(m, d, evs),
    ensures
        inv(run(m, d, evs).0, run(m, d, evs).1, d0),
    decreases evs.len(),
{
    if evs.len() > 0 {
        lemma_inv_step(m, d, d0, evs[0]);
        lemma_inv_run(advanced(m, evs[0]), effect(m, d, evs[0]), d0, evs.drop_first());
    }
}

pub open spec fn compatible_start(source: Version, target: Version) -> LocalUpgrade {
    LocalUpgrade { flow: Flow::Compatible, step: Step::Install, source, target }
}

pub open spec fn incompatible_start(source: Version, target: Version) -> LocalUpgrade {
    LocalUpgrade { flow: Flow::Incompatible, step: Step::CheckMarker, source, target }
}

pub open spec fn revert_start(current: Version) -> LocalUpgrade {
    LocalUpgrade { flow: Flow::Revert, step: Step::RevertCheckMarker, source: current, target: current }
}

/// A completed compatible upgrade records the new version in the data
/// directory and leaves the marker, the backup directory and the dump alone.
pub proof fn law_compatible_success(source: Version, target: Version, d0: Disk, evs: Seq<Event>)
    requires
        live(d0),
        feasible(compatible_start(source, target), d0, evs),
        run(compatible_start(source, target), d0, evs).0.step == Step::Finished(Outcome::Upgraded),
    ensures
        ({
            let d = run(compatible_start(source, target), d0, evs).1;
            &&& d.data_dir == Some(DataDir { info: Some(target), ..d0.data_dir->0 })
            &&& d.marker == d0.marker
            &&& d.backup_dir == d0.backup_dir
            &&& d.dump == d0.dump
        }),
{
    lemma_inv_run(compatible_start(source, target), d0, d0, evs);
    lemma_run_keeps_versions(compatible_start(source, target), d0, evs);
}

/// An incompatible upgrade started while the upgrade marker exists changes
/// nothing on disk and ends, if at all, as already in progress (or on a
/// probe that could not be answered).
pub proof fn law_in_progress_untouched(source: Version, target: Version, d0: Disk, evs: Seq<Event>)
    requires
        d0.marker,
        feasible(incompatible_start(source, target), d0, evs),
    ensures
        run(incompatible_start(source, target), d0, evs).1 == d0,
        ({
            let s = run(incompatible_start(source, target), d0, evs).0.step;
            s == Step::CheckMarker || s == Step::Finished(Outcome::AlreadyInProgress) || s
                == Step::Finished(Outcome::BackupFailed)
        }),
{
    let m = incompatible_start(source, target);
    if evs.len() > 0 {
        let m1 = advanced(m, evs[0]);
        assert(effect(m, d0, evs[0]) == d0);
        lemma_finished_stays(m1, d0, evs.drop_first());
    }
}

/// A completed incompatible upgrade leaves no marker, a data directory
/// holding the original records (with the original TLS material and the new
/// version recorded), and the original data kept in the backup directory.
pub proof fn law_incompatible_success(
    source: Version,
    target: Version,
    d0: Disk,
    evs: Seq<Event>,
)
    requires
        live(d0),
        feasible(incompatible_start(source, target), d0, evs),
        run(incompatible_start(source, target), d0, evs).0.step == Step::Finished(
            Outcome::Upgraded,
        ),
    ensures
        ({
            let d = run(incompatible_start(source, target), d0, evs).1;
            let o = d0.data_dir->0;
            &&& !d.marker
            &&& d.data_dir == Some(migrated(o, target))
            &&& d.data_dir->0.records == o.records
            &&& d.backup_dir == Some(with_meta(o))
        }),
{
    lemma_inv_run(incompatible_start(source, target), d0, d0, evs);
    lemma_run_keeps_versions(incompatible_start(source, target), d0, evs);
}

/// A dump failure leaves the marker, the data directory and the backup
/// directory as they were before the attempt.
pub proof fn law_dump_failure_untouched(
    source: Version,
    target: Version,
    d0: Disk,
    evs: Seq<Event>,
)
    requires
        live(d0),
        feasible(incompatible_start(source, target), d0, evs),
        run(incompatible_start(source, target), d0, evs).0.step == Step::Finished(
            Outcome::DumpFailed,
        ),
    ensures
        ({
            let d = run(incompatible_start(source, target), d0, evs).1;
            &&& d.marker == d0.marker
            &&& d.data_dir == d0.data_dir
            &&& d.backup_dir == d0.backup_dir
        }),
{
    lemma_inv_run(incompatible_start(source, target), d0, d0, evs);
    lemma_run_keeps_versions(incompatible_start(source, target), d0, evs);
}

/// A failure once the data directory has been moved aside leaves the marker
/// and the backup directory in place, and a completed revert afterwards
/// brings the data directory back as it was before the upgrade, less any
/// backup record: exactly as it was when it held none.
pub proof fn law_revert_after_failure(
    source: Version,
    target: Version,
    d0: Disk,
    evs: Seq<Event>,
    current: Version,
    revert_evs: Seq<Event>,
)
    requires
        live(d0),
        feasible(incompatible_start(source, target), d0, evs),
        run(incompatible_start(source, target), d0, evs).0.step == Step::Finished(
            Outcome::NeedsRevert,
        ),
        feasible(revert_start(current), run(incompatible_start(source, target), d0, evs).1, revert_evs),
        run(revert_start(current), run(incompatible_start(source, target), d0, evs).1, revert_evs).0.step
            == Step::Finished(Outcome::Reverted),
    ensures
        run(incompatible_start(source, target), d0, evs).1.marker,
        run(incompatible_start(source, target), d0, evs).1.backup_dir is Some,
        !run(revert_start(current), run(incompatible_start(source, target), d0, evs).1, revert_evs).1.marker,
        run(revert_start(current), run(incompatible_start(source, target), d0, evs).1, revert_evs).1.data_dir
            == Some(unmarked(d0.data_dir->0)),
        !d0.data_dir->0.backup_meta ==> run(
            revert_start(current),
            run(incompatible_start(source, target), d0, evs).1,
            revert_evs,
        ).1.data_dir == d0.data_dir,
{
    let d1 = run(incompatible_start(source, target), d0, evs).1;
    lemma_inv_run(incompatible_start(source, target), d0, d0, evs);
    lemma_run_keeps_versions(incompatible_start(source, target), d0, evs);
    assert(inv(revert_start(current), d1, d0));
    lemma_inv_run(revert_start(current), d1, d0, revert_evs);
    lemma_run_keeps_versions(revert_start(current), d1, revert_evs);
}

} // verus!

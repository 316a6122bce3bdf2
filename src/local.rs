use vstd::prelude::*;

use crate::version::Version;

verus! {

/// How long a freshly restored server may take to accept connections, in
/// seconds, before the restore counts as failed.
pub const RESTORE_WAIT_SECS: u64 = 300;

/// Which of the three local procedures a machine runs.
#[derive(Clone, Copy, Debug, PartialEq, Eq, Structural)]
pub enum Flow {
    /// In-place upgrade: the new build reads the existing data directory.
    Compatible,
    /// Full migration: dump, back up, restore into a fresh data directory.
    Incompatible,
    /// Operator recovery after an incompatible upgrade that did not finish.
    Revert,
}

/// How a local procedure ended.
#[derive(Clone, Copy, Debug, PartialEq, Eq, Structural)]
pub enum Outcome {
    /// The chosen build is not newer than the installed one.
    AlreadyUpToDate,
    Upgraded,
    /// The upgrade marker exists: an earlier upgrade did not complete.
    AlreadyInProgress,
    InstallFailed,
    /// Starting, dumping or stopping the old server failed; nothing was moved.
    DumpFailed,
    /// Writing the records or moving the data directory aside failed.
    BackupFailed,
    /// The data directory was moved aside and could not be rebuilt; the
    /// operator must run the revert procedure.
    NeedsRevert,
    /// The instance metadata could not be written (compatible path).
    MetadataFailed,
    RestartFailed,
    MarkerRemovalFailed,
    Reverted,
    /// No upgrade marker: there is nothing to revert.
    NothingToRevert,
    /// The backup directory holds no backup record.
    NoBackup,
    RevertFailed,
}

/// The position of a machine within its procedure.
#[derive(Clone, Copy, Debug, PartialEq, Eq, Structural)]
pub enum Step {
    CheckMarker,
    Install,
    StartServer,
    DumpLive,
    StopServer,
    PrepareManualRun,
    DumpSpawned,
    RecheckMarker,
    WriteMarker,
    WriteBackupMeta,
    ProbeBackup,
    RemoveStaleBackup,
    RenameData,
    CreateDataDir,
    PrepareRestoreRun,
    Restore,
    WriteInfo,
    CopyCert,
    CopyKey,
    RegisterService,
    Restart,
    RemoveMarker,
    RevertCheckMarker,
    RevertCheckBackup,
    RevertRemoveData,
    RevertRename,
    RevertRemoveMeta,
    RevertRemoveMarker,
    Finished(Outcome),
}

/// What the caller must do next, and report back as an [`Event`].
#[derive(Clone, Copy, Debug, PartialEq, Eq, Structural)]
pub enum Action {
    /// Nothing: the procedure has ended.
    Stop,
    /// Report with `Found` whether the upgrade marker file exists.
    ProbeMarker,
    InstallPackage,
    /// Start the server through the service manager.
    StartService,
    /// Dump every database of the running server, secrets included, to the
    /// dump path (replacing an older dump).
    DumpRunning,
    StopService,
    EnsureRunstateDir,
    /// Spawn the old server directly and dump it while it runs.
    SpawnAndDump,
    /// Write an [`crate::meta::UpgradeMeta`] record to the marker path.
    WriteUpgradeMarker,
    /// Write a [`crate::meta::BackupMeta`] record into the live data directory.
    WriteBackupMeta,
    /// Report with `Found` whether the backup directory exists.
    ProbeBackupDir,
    RemoveBackupDir,
    /// Rename the data directory to the backup directory.
    RenameDataToBackup,
    CreateDataDir,
    /// Spawn the new server in bootstrap mode and restore the dump into it,
    /// waiting at most [`RESTORE_WAIT_SECS`] for it to accept connections.
    SpawnAndRestore,
    /// Persist the instance metadata with the new installation.
    WriteInstanceInfo,
    /// Copy the TLS certificate from the backup directory into the data directory.
    CopyTlsCert,
    /// Copy the TLS private key from the backup directory into the data directory.
    CopyTlsKey,
    /// Register the server with the service manager; a failure is not fatal.
    RegisterService,
    RestartServer,
    RemoveUpgradeMarker,
    /// Report with `Found` whether the backup directory holds a backup record.
    ProbeBackupMeta,
    RemoveDataDir,
    /// Rename the backup directory to the data directory.
    RenameBackupToData,
    /// Remove the backup record from the data directory.
    RemoveBackupMeta,
}

/// What the caller reports after performing an [`Action`].
#[derive(Clone, Copy, Debug, PartialEq, Eq, Structural)]
pub enum Event {
    Succeeded,
    Failed,
    /// The answer to a probe.
    Found(bool),
}

/// A local upgrade (or revert) in progress: the procedure, the step it has
/// reached, and the versions it moves between.
#[derive(Clone, Copy, Debug, PartialEq, Eq, Structural)]
pub struct LocalUpgrade {
    pub flow: Flow,
    pub step: Step,
    pub source: Version,
    pub target: Version,
}

pub open spec fn step_action(s: Step) -> Action {
    match s {
        Step::CheckMarker => Action::ProbeMarker,
        Step::Install => Action::InstallPackage,
        Step::StartServer => Action::StartService,
        Step::DumpLive => Action::DumpRunning,
        Step::StopServer => Action::StopService,
        Step::PrepareManualRun => Action::EnsureRunstateDir,
        Step::DumpSpawned => Action::SpawnAndDump,
        Step::RecheckMarker => Action::ProbeMarker,
        Step::WriteMarker => Action::WriteUpgradeMarker,
        Step::WriteBackupMeta => Action::WriteBackupMeta,
        Step::ProbeBackup => Action::ProbeBackupDir,
        Step::RemoveStaleBackup => Action::RemoveBackupDir,
        Step::RenameData => Action::RenameDataToBackup,
        Step::CreateDataDir => Action::CreateDataDir,
        Step::PrepareRestoreRun => Action::EnsureRunstateDir,
        Step::Restore => Action::SpawnAndRestore,
        Step::WriteInfo => Action::WriteInstanceInfo,
        Step::CopyCert => Action::CopyTlsCert,
        Step::CopyKey => Action::CopyTlsKey,
        Step::RegisterService => Action::RegisterService,
        Step::Restart => Action::RestartServer,
        Step::RemoveMarker => Action::RemoveUpgradeMarker,
        Step::RevertCheckMarker => Action::ProbeMarker,
        Step::RevertCheckBackup => Action::ProbeBackupMeta,
        Step::RevertRemoveData => Action::RemoveDataDir,
        Step::RevertRename => Action::RenameBackupToData,
        Step::RevertRemoveMeta => Action::RemoveBackupMeta,
        Step::RevertRemoveMarker => Action::RemoveUpgradeMarker,
        Step::Finished(_) => Action::Stop,
    }
}

/// The step that follows `on_ok` when `ev` reports success, else `on_err`.
pub open spec fn after(ev: Event, on_ok: Step, on_err: Outcome) -> Step {
    if ev is Succeeded {
        on_ok
    } else {
        Step::Finished(on_err)
    }
}

/// The step that follows a probe: `yes` or `no` by its answer, `on_err`
/// when the probe could not be answered.
pub open spec fn after_probe(ev: Event, yes: Step, no: Step, on_err: Outcome) -> Step {
    match ev {
        Event::Found(b) => if b {
            yes
        } else {
            no
        },
        _ => Step::Finished(on_err),
    }
}

/// The transition function of the local procedures.
pub open spec fn next_step(flow: Flow, s: Step, ev: Event) -> Step {
    match s {
        Step::CheckMarker => after_probe(
            ev,
            Step::Finished(Outcome::AlreadyInProgress),
            Step::Install,
            Outcome::BackupFailed,
        ),
        Step::Install => match flow {
            Flow::Compatible => after(ev, Step::WriteInfo, Outcome::InstallFailed),
            _ => after(ev, Step::StartServer, Outcome::InstallFailed),
        },
        Step::StartServer => if ev is Succeeded {
            Step::DumpLive
        } else {
            Step::PrepareManualRun
        },
        Step::DumpLive => after(ev, Step::StopServer, Outcome::DumpFailed),
        Step::StopServer => after(ev, Step::RecheckMarker, Outcome::DumpFailed),
        Step::PrepareManualRun => after(ev, Step::DumpSpawned, Outcome::DumpFailed),
        Step::DumpSpawned => after(ev, Step::RecheckMarker, Outcome::DumpFailed),
        Step::RecheckMarker => after_probe(
            ev,
            Step::Finished(Outcome::AlreadyInProgress),
            Step::WriteMarker,
            Outcome::BackupFailed,
        ),
        Step::WriteMarker => after(ev, Step::WriteBackupMeta, Outcome::BackupFailed),
        Step::WriteBackupMeta => after(ev, Step::ProbeBackup, Outcome::BackupFailed),
        Step::ProbeBackup => after_probe(
            ev,
            Step::RemoveStaleBackup,
            Step::RenameData,
            Outcome::BackupFailed,
        ),
        Step::RemoveStaleBackup => after(ev, Step::RenameData, Outcome::BackupFailed),
        Step::RenameData => after(ev, Step::CreateDataDir, Outcome::BackupFailed),
        Step::CreateDataDir => after(ev, Step::PrepareRestoreRun, Outcome::NeedsRevert),
        Step::PrepareRestoreRun => after(ev, Step::Restore, Outcome::NeedsRevert),
        Step::Restore => after(ev, Step::WriteInfo, Outcome::NeedsRevert),
        Step::WriteInfo => match flow {
            Flow::Compatible => after(ev, Step::RegisterService, Outcome::MetadataFailed),
            _ => after(ev, Step::CopyCert, Outcome::NeedsRevert),
        },
        Step::CopyCert => after(ev, Step::CopyKey, Outcome::NeedsRevert),
        Step::CopyKey => after(ev, Step::RegisterService, Outcome::NeedsRevert),
        Step::RegisterService => Step::Restart,
        Step::Restart => match flow {
            Flow::Compatible => after(ev, Step::Finished(Outcome::Upgraded), Outcome::RestartFailed),
            _ => after(ev, Step::RemoveMarker, Outcome::RestartFailed),
        },
        Step::RemoveMarker => after(
            ev,
            Step::Finished(Outcome::Upgraded),
            Outcome::MarkerRemovalFailed,
        ),
        Step::RevertCheckMarker => after_probe(
            ev,
            Step::RevertCheckBackup,
            Step::Finished(Outcome::NothingToRevert),
            Outcome::RevertFailed,
        ),
        Step::RevertCheckBackup => after_probe(
            ev,
            Step::RevertRemoveData,
            Step::Finished(Outcome::NoBackup),
            Outcome::RevertFailed,
        ),
        Step::RevertRemoveData => after(ev, Step::RevertRename, Outcome::RevertFailed),
        Step::RevertRename => after(ev, Step::RevertRemoveMeta, Outcome::RevertFailed),
        Step::RevertRemoveMeta => after(ev, Step::RevertRemoveMarker, Outcome::RevertFailed),
        Step::RevertRemoveMarker => after(
            ev,
            Step::Finished(Outcome::Reverted),
            Outcome::RevertFailed,
        ),
        Step::Finished(o) => Step::Finished(o),
    }
}

pub open spec fn advanced(m: LocalUpgrade, ev: Event) -> LocalUpgrade {
    LocalUpgrade { step: next_step(m.flow, m.step, ev), ..m }
}

fn succeeded_then(ev: Event, on_ok: Step, on_err: Outcome) -> (r: Step)
    ensures
        r == after(ev, on_ok, on_err),
{
    match ev {
        Event::Succeeded => on_ok,
        _ => Step::Finished(on_err),
    }
}

fn probed_then(ev: Event, yes: Step, no: Step, on_err: Outcome) -> (r: Step)
    ensures
        r == after_probe(ev, yes, no, on_err),
{
    match ev {
        Event::Found(b) => if b {
            yes
        } else {
            no
        },
        _ => Step::Finished(on_err),
    }
}

/// The compatible path, from installing the new build on.
pub fn upgrade_compatible(source: Version, target: Version) -> (r: LocalUpgrade)
    ensures
        r == (LocalUpgrade { flow: Flow::Compatible, step: Step::Install, source, target }),
{
    LocalUpgrade { flow: Flow::Compatible, step: Step::Install, source, target }
}

/// The incompatible path, from the check for an upgrade already in progress on.
pub fn upgrade_incompatible(source: Version, target: Version) -> (r: LocalUpgrade)
    ensures
        r == (LocalUpgrade {
            flow: Flow::Incompatible,
            step: Step::CheckMarker,
            source,
            target,
        }),
{
    LocalUpgrade { flow: Flow::Incompatible, step: Step::CheckMarker, source, target }
}

impl LocalUpgrade {
    /// A procedure that has already ended with nothing to do.
    pub fn up_to_date(source: Version, target: Version) -> (r: LocalUpgrade)
        ensures
            r == (LocalUpgrade {
                flow: Flow::Compatible,
                step: Step::Finished(Outcome::AlreadyUpToDate),
                source,
                target,
            }),
    {
        LocalUpgrade {
            flow: Flow::Compatible,
            step: Step::Finished(Outcome::AlreadyUpToDate),
            source,
            target,
        }
    }

    /// The revert procedure for an instance whose installed version is `current`.
    pub fn revert(current: Version) -> (r: LocalUpgrade)
        ensures
            r == (LocalUpgrade {
                flow: Flow::Revert,
                step: Step::RevertCheckMarker,
                source: current,
                target: current,
            }),
    {
        LocalUpgrade {
            flow: Flow::Revert,
            step: Step::RevertCheckMarker,
            source: current,
            target: current,
        }
    }

    pub fn action(&self) -> (r: Action)
        ensures
            r == step_action(self.step),
    {
        match self.step {
            Step::CheckMarker => Action::ProbeMarker,
            Step::Install => Action::InstallPackage,
            Step::StartServer => Action::StartService,
            Step::DumpLive => Action::DumpRunning,
            Step::StopServer => Action::StopService,
            Step::PrepareManualRun => Action::EnsureRunstateDir,
            Step::DumpSpawned => Action::SpawnAndDump,
            Step::RecheckMarker => Action::ProbeMarker,
            Step::WriteMarker => Action::WriteUpgradeMarker,
            Step::WriteBackupMeta => Action::WriteBackupMeta,
            Step::ProbeBackup => Action::ProbeBackupDir,
            Step::RemoveStaleBackup => Action::RemoveBackupDir,
            Step::RenameData => Action::RenameDataToBackup,
            Step::CreateDataDir => Action::CreateDataDir,
            Step::PrepareRestoreRun => Action::EnsureRunstateDir,
            Step::Restore => Action::SpawnAndRestore,
            Step::WriteInfo => Action::WriteInstanceInfo,
            Step::CopyCert => Action::CopyTlsCert,
            Step::CopyKey => Action::CopyTlsKey,
            Step::RegisterService => Action::RegisterService,
            Step::Restart => Action::RestartServer,
            Step::RemoveMarker => Action::RemoveUpgradeMarker,
            Step::RevertCheckMarker => Action::ProbeMarker,
            Step::RevertCheckBackup => Action::ProbeBackupMeta,
            Step::RevertRemoveData => Action::RemoveDataDir,
            Step::RevertRename => Action::RenameBackupToData,
            Step::RevertRemoveMeta => Action::RemoveBackupMeta,
            Step::RevertRemoveMarker => Action::RemoveUpgradeMarker,
            Step::Finished(_) => Action::Stop,
        }
    }

    /// The outcome, once the procedure has ended.
    pub fn outcome(&self) -> (r: Option<Outcome>)
        ensures
            r == (match self.step {
                Step::Finished(o) => Some(o),
                _ => None::<Outcome>,
            }),
    {
        match self.step {
            Step::Finished(o) => Some(o),
            _ => None,
        }
    }

    /// Moves the procedure on by the result of the last action.
    pub fn advance(&mut self, ev: Event)
        ensures
            *final(self) == advanced(*old(self), ev),
    {
        let flow = self.flow;
        let s = match self.step {
            Step::CheckMarker => probed_then(
                ev,
                Step::Finished(Outcome::AlreadyInProgress),
                Step::Install,
                Outcome::BackupFailed,
            ),
            Step::Install => match flow {
                Flow::Compatible => succeeded_then(ev, Step::WriteInfo, Outcome::InstallFailed),
                _ => succeeded_then(ev, Step::StartServer, Outcome::InstallFailed),
            },
            Step::StartServer => match ev {
                Event::Succeeded => Step::DumpLive,
                _ => Step::PrepareManualRun,
            },
            Step::DumpLive => succeeded_then(ev, Step::StopServer, Outcome::DumpFailed),
            Step::StopServer => succeeded_then(ev, Step::RecheckMarker, Outcome::DumpFailed),
            Step::PrepareManualRun => succeeded_then(ev, Step::DumpSpawned, Outcome::DumpFailed),
            Step::DumpSpawned => succeeded_then(ev, Step::RecheckMarker, Outcome::DumpFailed),
            Step::RecheckMarker => probed_then(
                ev,
                Step::Finished(Outcome::AlreadyInProgress),
                Step::WriteMarker,
                Outcome::BackupFailed,
            ),
            Step::WriteMarker => succeeded_then(ev, Step::WriteBackupMeta, Outcome::BackupFailed),
            Step::WriteBackupMeta => succeeded_then(ev, Step::ProbeBackup, Outcome::BackupFailed),
            Step::ProbeBackup => probed_then(
                ev,
                Step::RemoveStaleBackup,
                Step::RenameData,
                Outcome::BackupFailed,
            ),
            Step::RemoveStaleBackup => succeeded_then(ev, Step::RenameData, Outcome::BackupFailed),
            Step::RenameData => succeeded_then(ev, Step::CreateDataDir, Outcome::BackupFailed),
            Step::CreateDataDir => succeeded_then(
                ev,
                Step::PrepareRestoreRun,
                Outcome::NeedsRevert,
            ),
            Step::PrepareRestoreRun => succeeded_then(ev, Step::Restore, Outcome::NeedsRevert),
            Step::Restore => succeeded_then(ev, Step::WriteInfo, Outcome::NeedsRevert),
            Step::WriteInfo => match flow {
                Flow::Compatible => succeeded_then(
                    ev,
                    Step::RegisterService,
                    Outcome::MetadataFailed,
                ),
                _ => succeeded_then(ev, Step::CopyCert, Outcome::NeedsRevert),
            },
            Step::CopyCert => succeeded_then(ev, Step::CopyKey, Outcome::NeedsRevert),
            Step::CopyKey => succeeded_then(ev, Step::RegisterService, Outcome::NeedsRevert),
            Step::RegisterService => Step::Restart,
            Step::Restart => match flow {
                Flow::Compatible => succeeded_then(
                    ev,
                    Step::Finished(Outcome::Upgraded),
                    Outcome::RestartFailed,
                ),
                _ => succeeded_then(ev, Step::RemoveMarker, Outcome::RestartFailed),
            },
            Step::RemoveMarker => succeeded_then(
                ev,
                Step::Finished(Outcome::Upgraded),
                Outcome::MarkerRemovalFailed,
            ),
            Step::RevertCheckMarker => probed_then(
                ev,
                Step::RevertCheckBackup,
                Step::Finished(Outcome::NothingToRevert),
                Outcome::RevertFailed,
            ),
            Step::RevertCheckBackup => probed_then(
                ev,
                Step::RevertRemoveData,
                Step::Finished(Outcome::NoBackup),
                Outcome::RevertFailed,
            ),
            Step::RevertRemoveData => succeeded_then(ev, Step::RevertRename, Outcome::RevertFailed),
            Step::RevertRename => succeeded_then(ev, Step::RevertRemoveMeta, Outcome::RevertFailed),
            Step::RevertRemoveMeta => succeeded_then(
                ev,
                Step::RevertRemoveMarker,
                Outcome::RevertFailed,
            ),
            Step::RevertRemoveMarker => succeeded_then(
                ev,
                Step::Finished(Outcome::Reverted),
                Outcome::RevertFailed,
            ),
            Step::Finished(o) => Step::Finished(o),
        };
        self.step = s;
    }
}

} // verus!

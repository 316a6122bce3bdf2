use instance_upgrade::local::{
    upgrade_compatible, upgrade_incompatible, Action, Event, Flow, LocalUpgrade, Outcome, Step,
};
use instance_upgrade::meta::{BackupMeta, Canceled};
use instance_upgrade::plan::{
    classify, instance_arg, upgrade, upgrade_local_cmd, InstanceName, Upgrade, UpgradeError,
    UpgradePath,
};
use instance_upgrade::version::{Stage, Version};

fn v(major: u64, minor: u64) -> Version {
    Version::new(major, minor, 0, Stage::Final)
}

#[derive(Clone, Debug, PartialEq)]
struct Dir {
    records: Vec<i32>,
    cert: Option<i32>,
    key: Option<i32>,
    info: Option<Version>,
    backup_meta: bool,
}

#[derive(Clone, Debug, PartialEq)]
struct Disk {
    marker: bool,
    data: Option<Dir>,
    backup: Option<Dir>,
    dump: Option<Vec<i32>>,
}

/// Performs the actions on an in-memory disk; `failing` lists actions that fail.
struct World {
    disk: Disk,
    failing: Vec<Action>,
    performed: Vec<Action>,
}

impl World {
    fn new(disk: Disk) -> World {
        World { disk, failing: Vec::new(), performed: Vec::new() }
    }

    fn perform(&mut self, m: &LocalUpgrade, a: Action) -> Event {
        self.performed.push(a);
        if self.failing.contains(&a) {
            return Event::Failed;
        }
        let d = &mut self.disk;
        match a {
            Action::ProbeMarker => return Event::Found(d.marker),
            Action::ProbeBackupDir => return Event::Found(d.backup.is_some()),
            Action::ProbeBackupMeta => {
                return Event::Found(d.backup.as_ref().map_or(false, |b| b.backup_meta))
            }
            Action::DumpRunning | Action::SpawnAndDump => {
                d.dump = Some(d.data.as_ref().unwrap().records.clone())
            }
            Action::WriteUpgradeMarker => d.marker = true,
            Action::WriteBackupMeta => d.data.as_mut().unwrap().backup_meta = true,
            Action::RemoveBackupDir => d.backup = None,
            Action::RenameDataToBackup => {
                assert!(d.backup.is_none());
                d.backup = d.data.take();
            }
            Action::CreateDataDir => {
                if d.data.is_none() {
                    d.data = Some(Dir {
                        records: Vec::new(),
                        cert: None,
                        key: None,
                        info: None,
                        backup_meta: false,
                    })
                }
            }
            Action::SpawnAndRestore => {
                d.data.as_mut().unwrap().records = d.dump.clone().unwrap()
            }
            Action::WriteInstanceInfo => d.data.as_mut().unwrap().info = Some(m.target),
            Action::CopyTlsCert => {
                d.data.as_mut().unwrap().cert = d.backup.as_ref().unwrap().cert
            }
            Action::CopyTlsKey => d.data.as_mut().unwrap().key = d.backup.as_ref().unwrap().key,
            Action::RemoveUpgradeMarker => {
                assert!(d.marker);
                d.marker = false
            }
            Action::RemoveDataDir => d.data = None,
            Action::RenameBackupToData => {
                assert!(d.data.is_none());
                d.data = d.backup.take();
            }
            Action::RemoveBackupMeta => d.data.as_mut().unwrap().backup_meta = false,
            _ => {}
        }
        Event::Succeeded
    }

    fn drive(&mut self, m: &mut LocalUpgrade) -> Outcome {
        for _ in 0..100 {
            let a = m.action();
            if a == Action::Stop {
                return m.outcome().unwrap();
            }
            let ev = self.perform(m, a);
            m.advance(ev);
        }
        panic!("procedure did not end");
    }
}

fn original_disk() -> Disk {
    Disk {
        marker: false,
        data: Some(Dir {
            records: vec![1, 2, 3],
            cert: Some(10),
            key: Some(11),
            info: Some(v(3, 1)),
            backup_meta: false,
        }),
        backup: None,
        dump: None,
    }
}

fn command() -> Upgrade {
    Upgrade {
        name: None,
        instance: Some(InstanceName::Local(String::from("inst"))),
        non_interactive: false,
        to_latest: false,
        to_nightly: false,
        to_testing: false,
        to_channel: None,
        to_version: None,
        force: false,
        force_dump_restore: false,
    }
}

#[test]
fn incompatible_upgrade_round_trips_records() {
    let d0 = original_disk();
    let mut w = World::new(d0.clone());
    let mut m = upgrade_incompatible(v(3, 1), v(4, 0));
    assert_eq!(w.drive(&mut m), Outcome::Upgraded);
    let d = &w.disk;
    assert!(!d.marker);
    let data = d.data.as_ref().unwrap();
    assert_eq!(data.records, vec![1, 2, 3]);
    assert_eq!(data.cert, Some(10));
    assert_eq!(data.key, Some(11));
    assert_eq!(data.info, Some(v(4, 0)));
    let mut kept = d0.data.clone().unwrap();
    kept.backup_meta = true;
    assert_eq!(d.backup, Some(kept));
    assert_eq!(*w.performed.last().unwrap(), Action::RemoveUpgradeMarker);
}

#[test]
fn incompatible_upgrade_replaces_stale_backup() {
    let mut d0 = original_disk();
    d0.backup = Some(Dir { records: vec![9], cert: None, key: None, info: None, backup_meta: true });
    let mut w = World::new(d0);
    let mut m = upgrade_incompatible(v(3, 1), v(4, 0));
    assert_eq!(w.drive(&mut m), Outcome::Upgraded);
    assert!(w.performed.contains(&Action::RemoveBackupDir));
    assert_eq!(w.disk.backup.as_ref().unwrap().records, vec![1, 2, 3]);
}

#[test]
fn dump_falls_back_to_spawned_server() {
    let mut w = World::new(original_disk());
    w.failing.push(Action::StartService);
    let mut m = upgrade_incompatible(v(3, 1), v(4, 0));
    assert_eq!(w.drive(&mut m), Outcome::Upgraded);
    assert!(w.performed.contains(&Action::SpawnAndDump));
    assert!(!w.performed.contains(&Action::DumpRunning));
}

#[test]
fn marker_present_leaves_everything_untouched() {
    let mut d0 = original_disk();
    d0.marker = true;
    let mut w = World::new(d0.clone());
    let mut m = upgrade_incompatible(v(3, 1), v(4, 0));
    assert_eq!(w.drive(&mut m), Outcome::AlreadyInProgress);
    assert_eq!(w.disk, d0);
    assert_eq!(w.performed, vec![Action::ProbeMarker]);
}

#[test]
fn dump_failure_leaves_directories() {
    let d0 = original_disk();
    let mut w = World::new(d0.clone());
    w.failing.push(Action::DumpRunning);
    let mut m = upgrade_incompatible(v(3, 1), v(4, 0));
    assert_eq!(w.drive(&mut m), Outcome::DumpFailed);
    assert_eq!(w.disk.data, d0.data);
    assert_eq!(w.disk.backup, d0.backup);
    assert!(!w.disk.marker);
    assert!(!w.performed.contains(&Action::RenameDataToBackup));
}

#[test]
fn spawned_dump_failure_leaves_directories() {
    let d0 = original_disk();
    let mut w = World::new(d0.clone());
    w.failing.push(Action::StartService);
    w.failing.push(Action::SpawnAndDump);
    let mut m = upgrade_incompatible(v(3, 1), v(4, 0));
    assert_eq!(w.drive(&mut m), Outcome::DumpFailed);
    assert_eq!(w.disk, d0);
}

#[test]
fn restore_failure_needs_revert_and_revert_restores() {
    let d0 = original_disk();
    let mut w = World::new(d0.clone());
    w.failing.push(Action::SpawnAndRestore);
    let mut m = upgrade_incompatible(v(3, 1), v(4, 0));
    assert_eq!(w.drive(&mut m), Outcome::NeedsRevert);
    assert!(w.disk.marker);
    assert!(w.disk.backup.is_some());
    w.failing.clear();
    let mut r = LocalUpgrade::revert(v(3, 1));
    assert_eq!(r.flow, Flow::Revert);
    assert_eq!(w.drive(&mut r), Outcome::Reverted);
    assert!(!w.disk.marker);
    assert_eq!(w.disk.data, d0.data);
    assert_eq!(w.disk.backup, None);
}

#[test]
fn tls_copy_failure_needs_revert() {
    let mut w = World::new(original_disk());
    w.failing.push(Action::CopyTlsKey);
    let mut m = upgrade_incompatible(v(3, 1), v(4, 0));
    assert_eq!(w.drive(&mut m), Outcome::NeedsRevert);
    assert!(w.disk.marker);
}

#[test]
fn revert_without_marker_does_nothing() {
    let d0 = original_disk();
    let mut w = World::new(d0.clone());
    let mut r = LocalUpgrade::revert(v(3, 1));
    assert_eq!(w.drive(&mut r), Outcome::NothingToRevert);
    assert_eq!(w.disk, d0);
}

#[test]
fn revert_without_backup_record_stops() {
    let mut d0 = original_disk();
    d0.marker = true;
    let mut w = World::new(d0.clone());
    let mut r = LocalUpgrade::revert(v(3, 1));
    assert_eq!(w.drive(&mut r), Outcome::NoBackup);
    assert_eq!(w.disk, d0);
}

#[test]
fn compatible_upgrade_keeps_data_in_place() {
    let d0 = original_disk();
    let mut w = World::new(d0.clone());
    w.failing.push(Action::RegisterService);
    let mut m = upgrade_compatible(v(3, 1), v(3, 4));
    assert_eq!(w.drive(&mut m), Outcome::Upgraded);
    assert_eq!(
        w.performed,
        vec![
            Action::InstallPackage,
            Action::WriteInstanceInfo,
            Action::RegisterService,
            Action::RestartServer
        ]
    );
    let mut expected = d0.data.clone().unwrap();
    expected.info = Some(v(3, 4));
    assert_eq!(w.disk.data, Some(expected));
    assert_eq!(w.disk.backup, None);
    assert!(!w.disk.marker);
}

#[test]
fn install_failure_stops_early() {
    let d0 = original_disk();
    let mut w = World::new(d0.clone());
    w.failing.push(Action::InstallPackage);
    let mut m = upgrade_compatible(v(3, 1), v(3, 4));
    assert_eq!(w.drive(&mut m), Outcome::InstallFailed);
    let mut m2 = upgrade_incompatible(v(3, 1), v(4, 0));
    assert_eq!(w.drive(&mut m2), Outcome::InstallFailed);
    assert_eq!(w.disk, d0);
}

#[test]
fn restart_failure_keeps_marker() {
    let mut w = World::new(original_disk());
    w.failing.push(Action::RestartServer);
    let mut m = upgrade_incompatible(v(3, 1), v(4, 0));
    assert_eq!(w.drive(&mut m), Outcome::RestartFailed);
    assert!(w.disk.marker);
}

#[test]
fn classification() {
    assert_eq!(classify(&v(3, 1), &v(3, 4), false, false, false), UpgradePath::Compatible);
    assert_eq!(classify(&v(3, 1), &v(4, 0), false, false, false), UpgradePath::Incompatible);
    assert_eq!(classify(&v(3, 1), &v(3, 4), false, false, true), UpgradePath::Incompatible);
    assert_eq!(classify(&v(3, 1), &v(3, 1), true, true, false), UpgradePath::Incompatible);
    assert_eq!(classify(&v(3, 1), &v(3, 1), true, false, false), UpgradePath::Compatible);
}

#[test]
fn local_plan_up_to_date() {
    let catalog = vec![v(3, 0), v(3, 1), v(4, 0)];
    let plan = upgrade_local_cmd(&command(), v(3, 1), 0, &catalog).unwrap();
    assert_eq!(plan.package, 1);
    assert_eq!(plan.upgrade.outcome(), Some(Outcome::AlreadyUpToDate));
    assert_eq!(plan.upgrade.action(), Action::Stop);
    let d0 = original_disk();
    let mut w = World::new(d0.clone());
    let mut m = plan.upgrade;
    assert_eq!(w.drive(&mut m), Outcome::AlreadyUpToDate);
    assert_eq!(w.disk, d0);
    assert!(w.performed.is_empty());
}

#[test]
fn local_plan_paths() {
    let catalog = vec![v(3, 0), v(3, 4), v(4, 0)];
    let plan = upgrade_local_cmd(&command(), v(3, 1), 0, &catalog).unwrap();
    assert_eq!(plan.upgrade, upgrade_compatible(v(3, 1), v(3, 4)));
    let mut latest = command();
    latest.to_latest = true;
    let plan = upgrade_local_cmd(&latest, v(3, 1), 0, &catalog).unwrap();
    assert_eq!(plan.package, 2);
    assert_eq!(plan.upgrade, upgrade_incompatible(v(3, 1), v(4, 0)));
    let mut dump = command();
    dump.force_dump_restore = true;
    let plan = upgrade_local_cmd(&dump, v(3, 1), 0, &catalog).unwrap();
    assert_eq!(plan.upgrade.step, Step::CheckMarker);
}

#[test]
fn forced_reinstall_with_version_option_migrates() {
    let catalog = vec![v(3, 1)];
    let mut cmd = command();
    cmd.force = true;
    cmd.to_version = Some(v(3, 1));
    let plan = upgrade_local_cmd(&cmd, v(3, 1), 2, &catalog).unwrap();
    assert_eq!(plan.upgrade, upgrade_incompatible(v(3, 1), v(3, 1)));
    cmd.to_version = None;
    let plan = upgrade_local_cmd(&cmd, v(3, 1), 0, &catalog).unwrap();
    assert_eq!(plan.upgrade, upgrade_compatible(v(3, 1), v(3, 1)));
}

#[test]
fn local_plan_errors() {
    let catalog = vec![v(3, 4)];
    assert_eq!(upgrade_local_cmd(&command(), v(3, 1), 1, &catalog), Err(UpgradeError::ProjectInUse));
    let mut cmd = command();
    cmd.to_version = Some(v(5, 0));
    assert_eq!(
        upgrade_local_cmd(&cmd, v(3, 1), 0, &catalog),
        Err(UpgradeError::NoMatchingPackage)
    );
}

#[test]
fn instance_name_selection() {
    let local = Some(InstanceName::Local(String::from("a")));
    let cloud = Some(InstanceName::Cloud { org_slug: String::from("o"), name: String::from("b") });
    assert!(matches!(instance_arg(&local, &None), Ok(InstanceName::Local(n)) if n == "a"));
    assert!(matches!(instance_arg(&None, &cloud), Ok(InstanceName::Cloud { name, .. }) if name == "b"));
    assert!(matches!(instance_arg(&local, &cloud), Err(UpgradeError::ConflictingInstanceName)));
    assert!(matches!(instance_arg(&None, &None), Err(UpgradeError::MissingInstanceName)));
    let cmd = command();
    assert!(matches!(upgrade(&cmd), Ok(InstanceName::Local(n)) if n == "inst"));
}

#[test]
fn records() {
    let m = upgrade_incompatible(v(3, 1), v(4, 0));
    let meta = m.upgrade_meta(1_700_000_000, 42);
    assert_eq!(meta.source, v(3, 1));
    assert_eq!(meta.target, v(4, 0));
    assert_eq!(meta.started, 1_700_000_000);
    assert_eq!(meta.pid, 42);
    assert_eq!(BackupMeta::new(5).timestamp, 5);
    assert_eq!(Canceled.message(), "Operation canceled");
}

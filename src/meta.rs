use vstd::prelude::*;

use crate::local::LocalUpgrade;
use crate::version::Version;

verus! {

/// The record written to the upgrade marker path when an incompatible
/// upgrade starts; its presence means the upgrade has not completed.
#[derive(Clone, Copy, Debug, PartialEq, Eq, Structural)]
pub struct UpgradeMeta {
    pub source: Version,
    pub target: Version,
    /// Start time, in seconds since the Unix epoch.
    pub started: u64,
    pub pid: u32,
}

/// The record written into the data directory just before it becomes the
/// backup directory; it marks the backup as complete.
#[derive(Clone, Copy, Debug, PartialEq, Eq, Structural)]
pub struct BackupMeta {
    /// Seconds since the Unix epoch.
    pub timestamp: u64,
}

/// The reason an operation was interrupted by the user.
#[derive(Clone, Copy, Debug, PartialEq, Eq, Structural)]
pub struct Canceled;

impl Canceled {
    pub fn message(&self) -> (r: &'static str)
        ensures
            r@ == "Operation canceled"@,
    {
        "Operation canceled"
    }
}

impl BackupMeta {
    pub fn new(timestamp: u64) -> (r: BackupMeta)
        ensures
            r.timestamp == timestamp,
    {
        BackupMeta { timestamp }
    }
}

impl LocalUpgrade {
    /// The marker record for this upgrade, started at `started` by process `pid`.
    pub fn upgrade_meta(&self, started: u64, pid: u32) -> (r: UpgradeMeta)
        ensures
            r == (UpgradeMeta { source: self.source, target: self.target, started, pid }),
    {
        UpgradeMeta { source: self.source, target: self.target, started, pid }
    }
}

} // verus!

use vstd::prelude::*;

use crate::disk::{Disk, compatible_start, incompatible_start, lemma_finished_stays, run};
use crate::local::{Event, Flow, LocalUpgrade, Outcome, Step, upgrade_compatible, upgrade_incompatible};
use crate::query::{
    Channel,
    Query,
    QueryOptions,
    find_package,
    is_best_match,
    query_matches,
    spec_from_options,
    spec_from_version,
};
use crate::version::{Version, compatible, version_le};

verus! {

/// Why an upgrade could not be started.
#[derive(Clone, Copy, Debug, PartialEq, Eq, Structural)]
pub enum UpgradeError {
    /// No instance name was given.
    MissingInstanceName,
    /// The instance name was given both as a positional argument and as an option.
    ConflictingInstanceName,
    /// Projects use the instance and the upgrade was not forced.
    ProjectInUse,
    /// The catalog holds nothing that satisfies the version query.
    NoMatchingPackage,
}

/// An instance, either on this machine or in the cloud.
#[derive(Debug)]
pub enum InstanceName {
    Local(String),
    Cloud { org_slug: String, name: String },
}

/// The options of the upgrade command.
#[derive(Debug)]
pub struct Upgrade {
    pub name: Option<InstanceName>,
    pub instance: Option<InstanceName>,
    pub non_interactive: bool,
    pub to_latest: bool,
    pub to_nightly: bool,
    pub to_testing: bool,
    pub to_channel: Option<Channel>,
    pub to_version: Option<Version>,
    pub force: bool,
    pub force_dump_restore: bool,
}

/// The two local upgrade procedures.
#[derive(Clone, Copy, Debug, PartialEq, Eq, Structural)]
pub enum UpgradePath {
    Compatible,
    Incompatible,
}

/// What a local upgrade will do: the catalog entry it installs, the query
/// that chose it, and the procedure to run.
#[derive(Clone, Copy, Debug, PartialEq, Eq, Structural)]
pub struct LocalPlan {
    pub package: usize,
    pub query: Query,
    pub upgrade: LocalUpgrade,
}

/// The path for an upgrade from `current` to `target` that is not a no-op:
/// in place only when the versions are compatible, no dump and restore was
/// asked for, and it is not a forced upgrade to an explicitly chosen version.
pub open spec fn spec_classify(
    current: Version,
    target: Version,
    force: bool,
    ver_option: bool,
    force_dump_restore: bool,
) -> UpgradePath {
    if compatible(target, current) && !(force && ver_option) && !force_dump_restore {
        UpgradePath::Compatible
    } else {
        UpgradePath::Incompatible
    }
}

/// The procedure for upgrading `current` to `target`.
pub open spec fn local_start(
    current: Version,
    target: Version,
    force: bool,
    ver_option: bool,
    force_dump_restore: bool,
) -> LocalUpgrade {
    if version_le(target, current) && !force {
        LocalUpgrade {
            flow: Flow::Compatible,
            step: Step::Finished(Outcome::AlreadyUpToDate),
            source: current,
            target,
        }
    } else if spec_classify(current, target, force, ver_option, force_dump_restore)
        == UpgradePath::Compatible {
        compatible_start(current, target)
    } else {
        incompatible_start(current, target)
    }
}

pub open spec fn command_options(cmd: Upgrade) -> QueryOptions {
    QueryOptions {
        stable: cmd.to_latest,
        nightly: cmd.to_nightly,
        testing: cmd.to_testing,
        channel: cmd.to_channel,
        version: cmd.to_version,
    }
}

pub fn classify(
    current: &Version,
    target: &Version,
    force: bool,
    ver_option: bool,
    force_dump_restore: bool,
) -> (r: UpgradePath)
    ensures
        r == spec_classify(*current, *target, force, ver_option, force_dump_restore),
{
    if target.is_compatible(current) && !(force && ver_option) && !force_dump_restore {
        UpgradePath::Compatible
    } else {
        UpgradePath::Incompatible
    }
}

impl Upgrade {
    pub fn query_options(&self) -> (r: QueryOptions)
        ensures
            r == command_options(*self),
    {
        QueryOptions {
            stable: self.to_latest,
            nightly: self.to_nightly,
            testing: self.to_testing,
            channel: self.to_channel,
            version: self.to_version,
        }
    }
}

/// The instance named by the command, given either positionally or as an
/// option, but not both.
pub fn instance_arg<'a>(
    name: &'a Option<InstanceName>,
    instance: &'a Option<InstanceName>,
) -> (r: Result<&'a InstanceName, UpgradeError>)
    ensures
        r == instance_arg_result(name, instance),
{
    match name {
        Some(n) => match instance {
            Some(_) => Err(UpgradeError::ConflictingInstanceName),
            None => Ok(n),
        },
        None => match instance {
            Some(n) => Ok(n),
            None => Err(UpgradeError::MissingInstanceName),
        },
    }
}

/// Picks the instance that the upgrade command is about; the caller then
/// runs the local or the cloud upgrade by its kind.
pub fn upgrade(cmd: &Upgrade) -> (r: Result<&InstanceName, UpgradeError>)
    ensures
        r == instance_arg_result(&cmd.name, &cmd.instance),
{
    instance_arg(&cmd.name, &cmd.instance)
}

pub open spec fn instance_arg_result<'a>(
    name: &'a Option<InstanceName>,
    instance: &'a Option<InstanceName>,
) -> Result<&'a InstanceName, UpgradeError> {
    match (name, instance) {
        (Some(_), Some(_)) => Err(UpgradeError::ConflictingInstanceName),
        (Some(n), None) => Ok(n),
        (None, Some(n)) => Ok(n),
        (None, None) => Err(UpgradeError::MissingInstanceName),
    }
}

/// Plans the upgrade of a local instance at version `installed` that
/// `projects_using` projects use, choosing the build from `catalog`.
pub fn upgrade_local_cmd(
    cmd: &Upgrade,
    installed: Version,
    projects_using: usize,
    catalog: &Vec<Version>,
) -> (r: Result<LocalPlan, UpgradeError>)
    ensures
        ({
            let (q, ver_option) = spec_from_options(
                command_options(*cmd),
                spec_from_version(installed),
            );
            &&& (projects_using > 0 && !cmd.force) ==> r == Err::<LocalPlan, _>(
                UpgradeError::ProjectInUse,
            )
            &&& !(projects_using > 0 && !cmd.force) && (forall|j: int|
                0 <= j < catalog@.len() ==> !query_matches(q, #[trigger] catalog@[j])) ==> r
                == Err::<LocalPlan, _>(UpgradeError::NoMatchingPackage)
            &&& !(projects_using > 0 && !cmd.force) && (exists|j: int|
                0 <= j < catalog@.len() && query_matches(q, #[trigger] catalog@[j])) ==> r is Ok
            &&& r matches Ok(p) ==> {
                &&& p.query == q
                &&& is_best_match(catalog@, q, p.package as int)
                &&& p.upgrade == local_start(
                    installed,
                    catalog@[p.package as int],
                    cmd.force,
                    ver_option,
                    cmd.force_dump_restore,
                )
            }
        }),
{
    let (query, ver_option) = Query::from_options(&cmd.query_options(), Query::from_version(&installed));
    if projects_using > 0 && !cmd.force {
        return Err(UpgradeError::ProjectInUse);
    }
    let found = find_package(catalog, &query);
    match found {
        None => Err(UpgradeError::NoMatchingPackage),
        Some(i) => {
            let target = catalog[i];
            let upgrade = if target.le(&installed) && !cmd.force {
                LocalUpgrade::up_to_date(installed, target)
            } else {
                match classify(&installed, &target, cmd.force, ver_option, cmd.force_dump_restore) {
                    UpgradePath::Compatible => upgrade_compatible(installed, target),
                    UpgradePath::Incompatible => upgrade_incompatible(installed, target),
                }
            };
            Ok(LocalPlan { package: i, query, upgrade })
        },
    }
}

/// Compatible versions are upgraded in place, unless a dump and restore is
/// asked for or the upgrade is forced to an explicitly chosen version.
pub proof fn law_compatible_path(
    current: Version,
    target: Version,
    force: bool,
    ver_option: bool,
    force_dump_restore: bool,
)
    requires
        compatible(target, current),
        !force_dump_restore,
        !(force && ver_option),
    ensures
        spec_classify(current, target, force, ver_option, force_dump_restore)
            == UpgradePath::Compatible,
{
}

/// Incompatible versions, or an explicit request for dump and restore,
/// always take the migration path.
pub proof fn law_incompatible_path(
    current: Version,
    target: Version,
    force: bool,
    ver_option: bool,
    force_dump_restore: bool,
)
    requires
        !compatible(target, current) || force_dump_restore,
    ensures
        spec_classify(current, target, force, ver_option, force_dump_restore)
            == UpgradePath::Incompatible,
{
}

/// When the chosen build is not newer and the upgrade is not forced, the
/// procedure has already ended as up to date, whatever is reported to it,
/// and the disk is never changed.
pub proof fn law_up_to_date_is_idle(
    current: Version,
    target: Version,
    ver_option: bool,
    force_dump_restore: bool,
    d: Disk,
    evs: Seq<Event>,
)
    requires
        version_le(target, current),
    ensures
        local_start(current, target, false, ver_option, force_dump_restore).step == Step::Finished(
            Outcome::AlreadyUpToDate,
        ),
        run(local_start(current, target, false, ver_option, force_dump_restore), d, evs) == (
            local_start(current, target, false, ver_option, force_dump_restore),
            d,
        ),
{
    lemma_finished_stays(local_start(current, target, false, ver_option, force_dump_restore), d, evs);
}

} // verus!

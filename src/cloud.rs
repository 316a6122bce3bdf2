use vstd::prelude::*;

use crate::plan::{Upgrade, command_options};
use crate::query::{Query, spec_from_options};
use crate::version::{Version, version_le, version_lt, lemma_version_total};

verus! {

/// What an upgrade invocation did.
#[derive(Clone, Copy, Debug, PartialEq, Eq, Structural)]
pub enum UpgradeAction {
    UpToDate,
    Upgraded,
    Cancelled,
}

/// The outcome of one upgrade invocation.
#[derive(Clone, Copy, Debug, PartialEq, Eq, Structural)]
pub struct UpgradeResult {
    pub action: UpgradeAction,
    pub prior_version: Version,
    pub requested_version: Version,
    pub available_upgrade: Option<Version>,
}

/// Why a cloud upgrade stopped without a result.
#[derive(Clone, Copy, Debug, PartialEq, Eq, Structural)]
pub enum CloudError {
    InstanceNotFound,
    LookupFailed,
    ResolveFailed,
    ConfirmFailed,
    UpgradeRequestFailed,
}

/// The position of a cloud upgrade.
#[derive(Clone, Copy, Debug, PartialEq, Eq, Structural)]
pub enum CloudStep {
    FindInstance,
    ResolveVersion { prior: Version },
    Confirm { prior: Version, target: Version },
    RequestUpgrade { prior: Version, target: Version },
    Finished(UpgradeResult),
    Failed(CloudError),
}

/// What the caller must do next for a cloud upgrade.
#[derive(Clone, Copy, Debug, PartialEq, Eq, Structural)]
pub enum CloudAction {
    Stop,
    /// Look the instance up by organization and name; report `Found`.
    FindInstance,
    /// Resolve the version query in the cloud catalog; report `Resolved`.
    ResolveVersion,
    /// Ask whether to upgrade to this version; report `Answered`.
    Confirm(Version),
    /// Send the request that upgrades the instance to this version, with
    /// the force flag; report `Succeeded` or `Failed`.
    RequestUpgrade(Version, bool),
}

/// What the caller reports after a [`CloudAction`].
#[derive(Clone, Copy, Debug, PartialEq, Eq, Structural)]
pub enum CloudEvent {
    Found(Option<Version>),
    Resolved(Version),
    Answered(bool),
    Succeeded,
    Failed,
}

/// A cloud upgrade in progress.
#[derive(Clone, Copy, Debug, PartialEq, Eq, Structural)]
pub struct CloudUpgrade {
    pub force: bool,
    pub step: CloudStep,
}

pub open spec fn result_of(action: UpgradeAction, prior: Version, target: Version) -> UpgradeResult {
    UpgradeResult { action, prior_version: prior, requested_version: target, available_upgrade: None }
}

pub open spec fn cloud_action(m: CloudUpgrade) -> CloudAction {
    match m.step {
        CloudStep::FindInstance => CloudAction::FindInstance,
        CloudStep::ResolveVersion { .. } => CloudAction::ResolveVersion,
        CloudStep::Confirm { target, .. } => CloudAction::Confirm(target),
        CloudStep::RequestUpgrade { target, .. } => CloudAction::RequestUpgrade(target, m.force),
        _ => CloudAction::Stop,
    }
}

/// The transition function of the cloud upgrade.
pub open spec fn cloud_next(m: CloudUpgrade, ev: CloudEvent) -> CloudUpgrade {
    let step = match m.step {
        CloudStep::FindInstance => match ev {
            CloudEvent::Found(Some(v)) => CloudStep::ResolveVersion { prior: v },
            CloudEvent::Found(None) => CloudStep::Failed(CloudError::InstanceNotFound),
            _ => CloudStep::Failed(CloudError::LookupFailed),
        },
        CloudStep::ResolveVersion { prior } => match ev {
            CloudEvent::Resolved(t) => if version_le(t, prior) && !m.force {
                CloudStep::Finished(result_of(UpgradeAction::UpToDate, prior, t))
            } else {
                CloudStep::Confirm { prior, target: t }
            },
            _ => CloudStep::Failed(CloudError::ResolveFailed),
        },
        CloudStep::Confirm { prior, target } => match ev {
            CloudEvent::Answered(true) => CloudStep::RequestUpgrade { prior, target },
            CloudEvent::Answered(false) => CloudStep::Finished(
                result_of(UpgradeAction::Cancelled, prior, target),
            ),
            _ => CloudStep::Failed(CloudError::ConfirmFailed),
        },
        CloudStep::RequestUpgrade { prior, target } => match ev {
            CloudEvent::Succeeded => CloudStep::Finished(
                result_of(UpgradeAction::Upgraded, prior, target),
            ),
            _ => CloudStep::Failed(CloudError::UpgradeRequestFailed),
        },
        s => s,
    };
    CloudUpgrade { step, ..m }
}

/// The machine after `evs`, with the number of upgrade requests it issued.
pub open spec fn cloud_run(m: CloudUpgrade, evs: Seq<CloudEvent>) -> (CloudUpgrade, nat)
    decreases evs.len(),
{
    if evs.len() == 0 {
        (m, 0)
    } else {
        let rest = cloud_run(cloud_next(m, evs[0]), evs.drop_first());
        (rest.0, rest.1 + if cloud_action(m) is RequestUpgrade {
            1nat
        } else {
            0nat
        })
    }
}

pub open spec fn cloud_start(force: bool) -> CloudUpgrade {
    CloudUpgrade { force, step: CloudStep::FindInstance }
}

/// Starts a cloud upgrade; `force` upgrades even to a version that is not newer.
pub fn upgrade_cloud(force: bool) -> (r: CloudUpgrade)
    ensures
        r == cloud_start(force),
{
    CloudUpgrade { force, step: CloudStep::FindInstance }
}

/// The version query of a cloud upgrade command (latest stable unless an
/// option says otherwise) and the machine that carries it out.
pub fn upgrade_cloud_cmd(cmd: &Upgrade) -> (r: (Query, CloudUpgrade))
    ensures
        r.0 == spec_from_options(command_options(*cmd), Query::spec_stable()).0,
        r.1 == cloud_start(cmd.force),
{
    let (query, _) = Query::from_options(&cmd.query_options(), Query::stable());
    (query, upgrade_cloud(cmd.force))
}

impl CloudUpgrade {
    pub fn action(&self) -> (r: CloudAction)
        ensures
            r == cloud_action(*self),
    {
        match self.step {
            CloudStep::FindInstance => CloudAction::FindInstance,
            CloudStep::ResolveVersion { .. } => CloudAction::ResolveVersion,
            CloudStep::Confirm { target, .. } => CloudAction::Confirm(target),
            CloudStep::RequestUpgrade { target, .. } => CloudAction::RequestUpgrade(
                target,
                self.force,
            ),
            _ => CloudAction::Stop,
        }
    }

    /// The result, once the upgrade has ended: `Ok` with what was done, or
    /// `Err` with why it stopped.
    pub fn result(&self) -> (r: Option<Result<UpgradeResult, CloudError>>)
        ensures
            r == (match self.step {
                CloudStep::Finished(res) => Some(Ok::<UpgradeResult, CloudError>(res)),
                CloudStep::Failed(e) => Some(Err::<UpgradeResult, CloudError>(e)),
                _ => None,
            }),
    {
        match self.step {
            CloudStep::Finished(res) => Some(Ok(res)),
            CloudStep::Failed(e) => Some(Err(e)),
            _ => None,
        }
    }

    /// Moves the upgrade on by the result of the last action.
    pub fn advance(&mut self, ev: CloudEvent)
        ensures
            *final(self) == cloud_next(*old(self), ev),
    {
        let step = match self.step {
            CloudStep::FindInstance => match ev {
                CloudEvent::Found(Some(v)) => CloudStep::ResolveVersion { prior: v },
                CloudEvent::Found(None) => CloudStep::Failed(CloudError::InstanceNotFound),
                _ => CloudStep::Failed(CloudError::LookupFailed),
            },
            CloudStep::ResolveVersion { prior } => match ev {
                CloudEvent::Resolved(t) => if t.le(&prior) && !self.force {
                    CloudStep::Finished(
                        UpgradeResult {
                            action: UpgradeAction::UpToDate,
                            prior_version: prior,
                            requested_version: t,
                            available_upgrade: None,
                        },
                    )
                } else {
                    CloudStep::Confirm { prior, target: t }
                },
                _ => CloudStep::Failed(CloudError::ResolveFailed),
            },
            CloudStep::Confirm { prior, target } => match ev {
                CloudEvent::Answered(yes) => if yes {
                    CloudStep::RequestUpgrade { prior, target }
                } else {
                    CloudStep::Finished(
                        UpgradeResult {
                            action: UpgradeAction::Cancelled,
                            prior_version: prior,
                            requested_version: target,
                            available_upgrade: None,
                        },
                    )
                },
                _ => CloudStep::Failed(CloudError::ConfirmFailed),
            },
            CloudStep::RequestUpgrade { prior, target } => match ev {
                CloudEvent::Succeeded => CloudStep::Finished(
                    UpgradeResult {
                        action: UpgradeAction::Upgraded,
                        prior_version: prior,
                        requested_version: target,
                        available_upgrade: None,
                    },
                ),
                _ => CloudStep::Failed(CloudError::UpgradeRequestFailed),
            },
            s => s,
        };
        self.step = step;
    }
}

/// Requests that a run from `m` can still issue, and what its end implies.
pub open spec fn cloud_budget(m: CloudUpgrade, evs: Seq<CloudEvent>) -> bool {
    let (f, n) = cloud_run(m, evs);
    &&& n <= if m.step is Finished || m.step is Failed {
        0nat
    } else {
        1nat
    }
    &&& !(m.step is Finished || m.step is Failed) ==> (f.step matches CloudStep::Finished(res) ==> (
    res.action is Upgraded <==> n == 1))
}

proof fn lemma_cloud_budget(m: CloudUpgrade, evs: Seq<CloudEvent>)
    ensures
        cloud_budget(m, evs),
    decreases evs.len(),
{
    if m.step is Finished || m.step is Failed {
        lemma_cloud_stays(m, evs);
    } else if evs.len() > 0 {
        let m1 = cloud_next(m, evs[0]);
        if m1.step is Finished || m1.step is Failed {
            lemma_cloud_stays(m1, evs.drop_first());
        } else {
            lemma_cloud_budget(m1, evs.drop_first());
        }
    }
}

/// A cloud upgrade issues at most one upgrade request. It issues none when
/// it ends with nothing to do or cancelled, and exactly one when it ends
/// upgraded.
pub proof fn law_cloud_single_request(force: bool, evs: Seq<CloudEvent>)
    ensures
        cloud_run(cloud_start(force), evs).1 <= 1,
        cloud_run(cloud_start(force), evs).0.step matches CloudStep::Finished(res) ==> (
        res.action is Upgraded <==> cloud_run(cloud_start(force), evs).1 == 1),
{
    lemma_cloud_budget(cloud_start(force), evs);
}

/// An instance already at or above the resolved version, without force,
/// ends with nothing done and no request issued, whatever follows.
pub proof fn law_cloud_up_to_date(prior: Version, target: Version, evs: Seq<CloudEvent>)
    requires
        version_le(target, prior),
    ensures
        ({
            let evs2 = seq![CloudEvent::Found(Some(prior)), CloudEvent::Resolved(target)] + evs;
            let (f, n) = cloud_run(cloud_start(false), evs2);
            f.step == CloudStep::Finished(result_of(UpgradeAction::UpToDate, prior, target)) && n == 0
        }),
{
    let evs2 = seq![CloudEvent::Found(Some(prior)), CloudEvent::Resolved(target)] + evs;
    reveal_with_fuel(cloud_run, 3);
    let m0 = cloud_start(false);
    let m1 = cloud_next(m0, evs2[0]);
    let m2 = cloud_next(m1, evs2[1]);
    assert(evs2.drop_first().drop_first() =~= evs);
    assert(evs2.drop_first()[0] == evs2[1]);
    lemma_cloud_stays(m2, evs);
}

/// A declined confirmation ends cancelled, with no request issued.
pub proof fn law_cloud_declined(
    force: bool,
    prior: Version,
    target: Version,
    evs: Seq<CloudEvent>,
)
    requires
        !version_le(target, prior) || force,
    ensures
        ({
            let evs2 = seq![
                CloudEvent::Found(Some(prior)),
                CloudEvent::Resolved(target),
                CloudEvent::Answered(false),
            ] + evs;
            let (f, n) = cloud_run(cloud_start(force), evs2);
            f.step == CloudStep::Finished(result_of(UpgradeAction::Cancelled, prior, target)) && n
                == 0
        }),
{
    let evs2 = seq![
        CloudEvent::Found(Some(prior)),
        CloudEvent::Resolved(target),
        CloudEvent::Answered(false),
    ] + evs;
    reveal_with_fuel(cloud_run, 5);
    let m0 = cloud_start(force);
    let m1 = cloud_next(m0, evs2[0]);
    let m2 = cloud_next(m1, evs2[1]);
    let m3 = cloud_next(m2, evs2[2]);
    assert(evs2.drop_first().drop_first().drop_first() =~= evs);
    assert(evs2.drop_first()[0] == evs2[1]);
    assert(evs2.drop_first().drop_first()[0] == evs2[2]);
    lemma_cloud_stays(m3, evs);
}

/// A confirmed upgrade to a newer version issues exactly one request and,
/// when that request succeeds, ends upgraded.
pub proof fn law_cloud_confirmed(
    force: bool,
    prior: Version,
    target: Version,
    evs: Seq<CloudEvent>,
)
    requires
        version_lt(prior, target),
    ensures
        ({
            let evs2 = seq![
                CloudEvent::Found(Some(prior)),
                CloudEvent::Resolved(target),
                CloudEvent::Answered(true),
                CloudEvent::Succeeded,
            ] + evs;
            let (f, n) = cloud_run(cloud_start(force), evs2);
            f.step == CloudStep::Finished(result_of(UpgradeAction::Upgraded, prior, target)) && n
                == 1
        }),
{
    lemma_version_total(prior, target);
    let evs2 = seq![
        CloudEvent::Found(Some(prior)),
        CloudEvent::Resolved(target),
        CloudEvent::Answered(true),
        CloudEvent::Succeeded,
    ] + evs;
    reveal_with_fuel(cloud_run, 5);
    let m0 = cloud_start(force);
    let m1 = cloud_next(m0, evs2[0]);
    let m2 = cloud_next(m1, evs2[1]);
    let m3 = cloud_next(m2, evs2[2]);
    let m4 = cloud_next(m3, evs2[3]);
    assert(evs2.drop_first().drop_first().drop_first().drop_first() =~= evs);
    assert(evs2.drop_first()[0] == evs2[1]);
    assert(evs2.drop_first().drop_first()[0] == evs2[2]);
    assert(evs2.drop_first().drop_first().drop_first()[0] == evs2[3]);
    lemma_cloud_stays(m4, evs);
}

/// An ended cloud upgrade stays as it is and issues nothing more.
pub proof fn lemma_cloud_stays(m: CloudUpgrade, evs: Seq<CloudEvent>)
    requires
        m.step is Finished || m.step is Failed,
    ensures
        cloud_run(m, evs) == (m, 0nat),
    decreases evs.len(),
{
    if evs.len() > 0 {
        lemma_cloud_stays(cloud_next(m, evs[0]), evs.drop_first());
    }
}

} // verus!

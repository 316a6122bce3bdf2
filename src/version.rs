use vstd::prelude::*;

verus! {

/// Pre-release stage of a server build. A final release ranks above
/// every pre-release of the same `major.minor.patch`.
#[derive(Clone, Copy, Debug, PartialEq, Eq, Structural)]
pub enum Stage {
    Dev(u64),
    Alpha(u64),
    Beta(u64),
    Rc(u64),
    Final,
}

/// A concrete server version: `major.minor.patch` plus a pre-release stage.
#[derive(Clone, Copy, Debug, PartialEq, Eq, Structural)]
pub struct Version {
    pub major: u64,
    pub minor: u64,
    pub patch: u64,
    pub stage: Stage,
}

pub open spec fn stage_rank(s: Stage) -> int {
    match s {
        Stage::Dev(_) => 0,
        Stage::Alpha(_) => 1,
        Stage::Beta(_) => 2,
        Stage::Rc(_) => 3,
        Stage::Final => 4,
    }
}

pub open spec fn stage_number(s: Stage) -> int {
    match s {
        Stage::Dev(n) => n as int,
        Stage::Alpha(n) => n as int,
        Stage::Beta(n) => n as int,
        Stage::Rc(n) => n as int,
        Stage::Final => 0,
    }
}

pub open spec fn stage_lt(a: Stage, b: Stage) -> bool {
    stage_rank(a) < stage_rank(b) || (stage_rank(a) == stage_rank(b) && stage_number(a)
        < stage_number(b))
}

/// Strict version order: lexicographic on major, minor, patch, then stage.
pub open spec fn version_lt(a: Version, b: Version) -> bool {
    if a.major != b.major {
        a.major < b.major
    } else if a.minor != b.minor {
        a.minor < b.minor
    } else if a.patch != b.patch {
        a.patch < b.patch
    } else {
        stage_lt(a.stage, b.stage)
    }
}

pub open spec fn version_le(a: Version, b: Version) -> bool {
    version_lt(a, b) || a == b
}

/// Two versions share an on-disk data format when they have the same major
/// version and are both final releases, or when they are the very same build.
pub open spec fn compatible(target: Version, current: Version) -> bool {
    target == current || (target.major == current.major && target.stage is Final
        && current.stage is Final)
}

/// Stages with equal rank and number are the same stage.
pub proof fn lemma_stage_eq(a: Stage, b: Stage)
    ensures
        stage_rank(a) == stage_rank(b) && stage_number(a) == stage_number(b) ==> a == b,
{
}

/// The version order is total: of two distinct versions one is below the other.
pub proof fn lemma_version_total(a: Version, b: Version)
    ensures
        version_lt(a, b) || version_lt(b, a) || a == b,
        !(version_lt(a, b) && version_lt(b, a)),
        !version_lt(a, a),
{
    lemma_stage_eq(a.stage, b.stage);
}

/// The version order is transitive.
pub proof fn lemma_version_trans(a: Version, b: Version, c: Version)
    requires
        version_lt(a, b),
        version_lt(b, c),
    ensures
        version_lt(a, c),
{
}

impl Stage {
    pub fn rank(&self) -> (r: u64)
        ensures
            r as int == stage_rank(*self),
    {
        match self {
            Stage::Dev(_) => 0,
            Stage::Alpha(_) => 1,
            Stage::Beta(_) => 2,
            Stage::Rc(_) => 3,
            Stage::Final => 4,
        }
    }

    pub fn number(&self) -> (r: u64)
        ensures
            r as int == stage_number(*self),
    {
        match self {
            Stage::Dev(n) => *n,
            Stage::Alpha(n) => *n,
            Stage::Beta(n) => *n,
            Stage::Rc(n) => *n,
            Stage::Final => 0,
        }
    }

    pub fn is_final(&self) -> (r: bool)
        ensures
            r == (*self is Final),
    {
        matches!(self, Stage::Final)
    }
}

impl Version {
    pub fn new(major: u64, minor: u64, patch: u64, stage: Stage) -> (r: Version)
        ensures
            r == (Version { major, minor, patch, stage }),
    {
        Version { major, minor, patch, stage }
    }

    /// `self < other` in the version order.
    pub fn lt(&self, other: &Version) -> (r: bool)
        ensures
            r == version_lt(*self, *other),
    {
        if self.major != other.major {
            self.major < other.major
        } else if self.minor != other.minor {
            self.minor < other.minor
        } else if self.patch != other.patch {
            self.patch < other.patch
        } else {
            let (ra, rb) = (self.stage.rank(), other.stage.rank());
            ra < rb || (ra == rb && self.stage.number() < other.stage.number())
        }
    }

    /// `self <= other` in the version order.
    pub fn le(&self, other: &Version) -> (r: bool)
        ensures
            r == version_le(*self, *other),
    {
        self.lt(other) || *self == *other
    }

    /// Whether an instance at `current` can run `self` on its existing data
    /// directory, without a dump and restore.
    pub fn is_compatible(&self, current: &Version) -> (r: bool)
        ensures
            r == compatible(*self, *current),
    {
        *self == *current || (self.major == current.major && self.stage.is_final()
            && current.stage.is_final())
    }
}

} // verus!

use vstd::prelude::*;

use crate::version::{
    Stage,
    Version,
    version_le,
    lemma_version_total,
    lemma_version_trans,
};

verus! {

/// Release channel of the package catalog.
#[derive(Clone, Copy, Debug, PartialEq, Eq, Structural)]
pub enum Channel {
    /// Final releases only.
    Stable,
    /// Final releases and alpha, beta and release-candidate builds.
    Testing,
    /// Development builds only.
    Nightly,
}

/// Which build a user asks for.
#[derive(Clone, Copy, Debug, PartialEq, Eq, Structural)]
pub enum Query {
    /// Exactly this version.
    Exact(Version),
    /// The greatest version on `channel`, restricted to one major version
    /// when `major` is given.
    Latest { channel: Channel, major: Option<u64> },
}

/// The version-selecting options of an upgrade command.
#[derive(Clone, Copy, Debug)]
pub struct QueryOptions {
    pub stable: bool,
    pub nightly: bool,
    pub testing: bool,
    pub channel: Option<Channel>,
    pub version: Option<Version>,
}

pub open spec fn channel_admits(c: Channel, s: Stage) -> bool {
    match c {
        Channel::Stable => s is Final,
        Channel::Testing => !(s is Dev),
        Channel::Nightly => s is Dev,
    }
}

/// Whether catalog entry `v` satisfies query `q`.
pub open spec fn query_matches(q: Query, v: Version) -> bool {
    match q {
        Query::Exact(e) => v == e,
        Query::Latest { channel, major } => channel_admits(channel, v.stage) && match major {
            Some(m) => v.major == m,
            None => true,
        },
    }
}

/// The query chosen by the options, with whether any option selected it;
/// `default` is used when none did.
pub open spec fn spec_from_options(o: QueryOptions, default: Query) -> (Query, bool) {
    if o.nightly {
        (Query::Latest { channel: Channel::Nightly, major: None }, true)
    } else if o.testing {
        (Query::Latest { channel: Channel::Testing, major: None }, true)
    } else if o.stable {
        (Query::Latest { channel: Channel::Stable, major: None }, true)
    } else if o.version is Some {
        (Query::Exact(o.version->0), true)
    } else if o.channel is Some {
        (Query::Latest { channel: o.channel->0, major: None }, true)
    } else {
        (default, false)
    }
}

/// The query that keeps an instance on its current major version and on the
/// channel its current build came from.
pub open spec fn spec_from_version(v: Version) -> Query {
    match v.stage {
        Stage::Final => Query::Latest { channel: Channel::Stable, major: Some(v.major) },
        Stage::Dev(_) => Query::Latest { channel: Channel::Nightly, major: None },
        _ => Query::Latest { channel: Channel::Testing, major: Some(v.major) },
    }
}

/// `i` is a greatest entry of `catalog` among those that match `q`.
pub open spec fn is_best_match(catalog: Seq<Version>, q: Query, i: int) -> bool {
    &&& 0 <= i < catalog.len()
    &&& query_matches(q, catalog[i])
    &&& forall|j: int|
        0 <= j < catalog.len() && query_matches(q, #[trigger] catalog[j]) ==> version_le(
            catalog[j],
            catalog[i],
        )
}

impl Query {
    pub open spec fn spec_stable() -> Query {
        Query::Latest { channel: Channel::Stable, major: None }
    }

    pub fn stable() -> (r: Query)
        ensures
            r == Query::spec_stable(),
    {
        Query::Latest { channel: Channel::Stable, major: None }
    }

    pub fn from_version(v: &Version) -> (r: Query)
        ensures
            r == spec_from_version(*v),
    {
        match v.stage {
            Stage::Final => Query::Latest { channel: Channel::Stable, major: Some(v.major) },
            Stage::Dev(_) => Query::Latest { channel: Channel::Nightly, major: None },
            _ => Query::Latest { channel: Channel::Testing, major: Some(v.major) },
        }
    }

    /// Picks the query that the options ask for; the flag tells whether an
    /// option selected it (`false` when `default` was taken).
    pub fn from_options(o: &QueryOptions, default: Query) -> (r: (Query, bool))
        ensures
            r == spec_from_options(*o, default),
    {
        if o.nightly {
            (Query::Latest { channel: Channel::Nightly, major: None }, true)
        } else if o.testing {
            (Query::Latest { channel: Channel::Testing, major: None }, true)
        } else if o.stable {
            (Query::stable(), true)
        } else if let Some(v) = o.version {
            (Query::Exact(v), true)
        } else if let Some(c) = o.channel {
            (Query::Latest { channel: c, major: None }, true)
        } else {
            (default, false)
        }
    }

    pub fn matches(&self, v: &Version) -> (r: bool)
        ensures
            r == query_matches(*self, *v),
    {
        match self {
            Query::Exact(e) => *v == *e,
            Query::Latest { channel, major } => {
                let admitted = match channel {
                    Channel::Stable => v.stage.is_final(),
                    Channel::Testing => !matches!(v.stage, Stage::Dev(_)),
                    Channel::Nightly => matches!(v.stage, Stage::Dev(_)),
                };
                admitted && match major {
                    Some(m) => v.major == *m,
                    None => true,
                }
            },
        }
    }
}

/// Finds the greatest version in `catalog` that satisfies `query`; `None`
/// when no entry does. Of equal greatest entries the first is returned.
pub fn find_package(catalog: &Vec<Version>, query: &Query) -> (r: Option<usize>)
    ensures
        r is None <==> forall|j: int|
            0 <= j < catalog@.len() ==> !query_matches(*query, #[trigger] catalog@[j]),
        r matches Some(i) ==> is_best_match(catalog@, *query, i as int),
{
    let mut best: Option<usize> = None;
    let mut i: usize = 0;
    while i < catalog.len()
        invariant
            i <= catalog@.len(),
            best is None ==> forall|j: int|
                0 <= j < i ==> !query_matches(*query, #[trigger] catalog@[j]),
            best matches Some(b) ==> {
                &&& b < i
                &&& query_matches(*query, catalog@[b as int])
                &&& forall|j: int|
                    0 <= j < i && query_matches(*query, #[trigger] catalog@[j]) ==> version_le(
                        catalog@[j],
                        catalog@[b as int],
                    )
            },
        decreases catalog@.len() - i,
    {
        let v = &catalog[i];
        if query.matches(v) {
            match best {
                None => {
                    best = Some(i);
                },
                Some(b) => {
                    let cur = &catalog[b];
                    if cur.lt(v) {
                        assert forall|j: int|
                            0 <= j < i + 1 && query_matches(*query, #[trigger] catalog@[j])
                                implies version_le(catalog@[j], catalog@[i as int]) by {
                            if j < i && catalog@[j] != catalog@[b as int] {
                                lemma_version_trans(catalog@[j], catalog@[b as int], catalog@[i as int]);
                            }
                        }
                        best = Some(i);
                    } else {
                        proof {
                            lemma_version_total(catalog@[b as int], catalog@[i as int]);
                        }
                    }
                },
            }
        }
        i = i + 1;
    }
    best
}

} // verus!

use vstd::prelude::*;
use vstd::string::StringExecFns;

use crate::query::{Channel, Query};
use crate::version::{Stage, Version};

verus! {

pub open spec fn digit_char(d: int) -> char {
    if d == 0 {
        '0'
    } else if d == 1 {
        '1'
    } else if d == 2 {
        '2'
    } else if d == 3 {
        '3'
    } else if d == 4 {
        '4'
    } else if d == 5 {
        '5'
    } else if d == 6 {
        '6'
    } else if d == 7 {
        '7'
    } else if d == 8 {
        '8'
    } else {
        '9'
    }
}

/// The decimal digits of `n`, without leading zeros.
pub open spec fn decimal(n: nat) -> Seq<char>
    decreases n,
{
    if n < 10 {
        seq![digit_char(n as int)]
    } else {
        decimal(n / 10) + seq![digit_char((n % 10) as int)]
    }
}

pub open spec fn stage_text(s: Stage) -> Seq<char> {
    match s {
        Stage::Dev(n) => "-dev."@ + decimal(n as nat),
        Stage::Alpha(n) => "-alpha."@ + decimal(n as nat),
        Stage::Beta(n) => "-beta."@ + decimal(n as nat),
        Stage::Rc(n) => "-rc."@ + decimal(n as nat),
        Stage::Final => Seq::empty(),
    }
}

/// `major.minor`, then `.patch` when the patch is not zero, then the stage
/// suffix of a pre-release (`-alpha.1`).
pub open spec fn version_text(v: Version) -> Seq<char> {
    decimal(v.major as nat) + "."@ + decimal(v.minor as nat) + (if v.patch != 0 {
        "."@ + decimal(v.patch as nat)
    } else {
        Seq::empty()
    }) + stage_text(v.stage)
}

/// The option of the project upgrade command that selects what `q` selects.
pub open spec fn query_flag(q: Query) -> Seq<char> {
    match q {
        Query::Exact(v) => "--to-version="@ + version_text(v),
        Query::Latest { channel: Channel::Stable, major: Some(m) } => "--to-version="@ + decimal(
            m as nat,
        ),
        Query::Latest { channel: Channel::Stable, major: None } => "--to-latest"@,
        Query::Latest { channel: Channel::Nightly, .. } => "--to-nightly"@,
        Query::Latest { channel: Channel::Testing, .. } => "--to-testing"@,
    }
}

/// The command that upgrades the project in `project_dir` with `q`; the
/// directory is named unless it is the current project.
pub open spec fn project_command(q: Query, is_current: bool, project_dir: Seq<char>) -> Seq<char> {
    "  edgedb project upgrade "@ + query_flag(q) + if is_current {
        Seq::<char>::empty()
    } else {
        " --project-dir '"@ + project_dir + "'"@
    }
}

fn digit_str(d: u64) -> (r: &'static str)
    requires
        d < 10,
    ensures
        r@ == seq![digit_char(d as int)],
{
    proof {
        reveal_strlit("0");
        reveal_strlit("1");
        reveal_strlit("2");
        reveal_strlit("3");
        reveal_strlit("4");
        reveal_strlit("5");
        reveal_strlit("6");
        reveal_strlit("7");
        reveal_strlit("8");
        reveal_strlit("9");
    }
    if d == 0 {
        "0"
    } else if d == 1 {
        "1"
    } else if d == 2 {
        "2"
    } else if d == 3 {
        "3"
    } else if d == 4 {
        "4"
    } else if d == 5 {
        "5"
    } else if d == 6 {
        "6"
    } else if d == 7 {
        "7"
    } else if d == 8 {
        "8"
    } else {
        "9"
    }
}

/// Appends the decimal digits of `n` to `s`.
pub fn push_decimal(s: &mut String, n: u64)
    ensures
        final(s)@ == old(s)@ + decimal(n as nat),
    decreases n,
{
    if n < 10 {
        s.append(digit_str(n));
    } else {
        push_decimal(s, n / 10);
        s.append(digit_str(n % 10));
        assert(final(s)@ =~= old(s)@ + decimal(n as nat));
    }
}

fn push_stage(s: &mut String, stage: Stage)
    ensures
        final(s)@ == old(s)@ + stage_text(stage),
{
    match stage {
        Stage::Dev(n) => {
            s.append("-dev.");
            push_decimal(s, n);
        },
        Stage::Alpha(n) => {
            s.append("-alpha.");
            push_decimal(s, n);
        },
        Stage::Beta(n) => {
            s.append("-beta.");
            push_decimal(s, n);
        },
        Stage::Rc(n) => {
            s.append("-rc.");
            push_decimal(s, n);
        },
        Stage::Final => {},
    }
    assert(final(s)@ =~= old(s)@ + stage_text(stage));
}

fn push_version(s: &mut String, v: &Version)
    ensures
        final(s)@ == old(s)@ + version_text(*v),
{
    push_decimal(s, v.major);
    s.append(".");
    push_decimal(s, v.minor);
    if v.patch != 0 {
        s.append(".");
        push_decimal(s, v.patch);
    }
    push_stage(s, v.stage);
    assert(final(s)@ =~= old(s)@ + version_text(*v));
}

impl Version {
    /// The version as text, as the package catalog and the cloud service write it.
    pub fn to_string(&self) -> (r: String)
        ensures
            r@ == version_text(*self),
    {
        let mut s = String::new();
        push_version(&mut s, self);
        assert(s@ =~= version_text(*self));
        s
    }
}

/// The command that a user runs to upgrade the project in `project_dir`
/// along with its instance.
pub fn project_upgrade_command(
    version: &Query,
    current_project: &Option<String>,
    project_dir: &String,
) -> (r: String)
    ensures
        r@ == project_command(
            *version,
            current_project matches Some(p) && p@ == project_dir@,
            project_dir@,
        ),
{
    let mut s = String::from_str("  edgedb project upgrade ");
    match version {
        Query::Exact(v) => {
            s.append("--to-version=");
            push_version(&mut s, v);
        },
        Query::Latest { channel: Channel::Stable, major: Some(m) } => {
            s.append("--to-version=");
            push_decimal(&mut s, *m);
        },
        Query::Latest { channel: Channel::Stable, major: None } => {
            s.append("--to-latest");
        },
        Query::Latest { channel: Channel::Nightly, .. } => {
            s.append("--to-nightly");
        },
        Query::Latest { channel: Channel::Testing, .. } => {
            s.append("--to-testing");
        },
    }
    let is_current = match current_project {
        Some(p) => p.eq(project_dir),
        None => false,
    };
    if !is_current {
        s.append(" --project-dir '");
        s.append(project_dir.as_str());
        s.append("'");
    }
    assert(s@ =~= project_command(*version, is_current, project_dir@));
    s
}

} // verus!

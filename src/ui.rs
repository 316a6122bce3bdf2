use vstd::prelude::*;
use vstd::string::StringExecFns;

use crate::version::{Stage, Version, version_lt};

verus! {

/// How a probe of the web UI address answered.
#[derive(Clone, Copy, Debug, PartialEq, Eq, Structural)]
pub enum ProbeStatus {
    Served,
    NotFound,
    OtherStatus,
    Unreachable,
}

/// The step of the web UI address check.
#[derive(Clone, Copy, Debug, PartialEq, Eq, Structural)]
pub enum UiCheck {
    /// Probe the HTTPS address.
    ProbeHttps,
    /// Probe the plain HTTP address.
    ProbeHttp,
    /// Use the HTTPS address (`true`) or the plain one (`false`).
    Use(bool),
    /// The UI is not served; exit with this code.
    Fail(u8),
}

/// Where the authentication token of the web UI comes from.
#[derive(Clone, Copy, Debug, PartialEq, Eq, Structural)]
pub enum TokenSource {
    /// The connection configuration holds a secret key.
    Configured,
    /// Sign a token with the instance's keys, in the legacy format or not.
    Generate { legacy: bool },
    /// Sign a token for the development server.
    GenerateDev,
    NoToken,
}

/// The first step of the check: none without a server check, HTTPS first
/// for a server that is not a local instance.
pub open spec fn spec_ui_check_start(no_server_check: bool, local_instance: bool) -> UiCheck {
    if no_server_check {
        UiCheck::Use(false)
    } else if !local_instance {
        UiCheck::ProbeHttps
    } else {
        UiCheck::ProbeHttp
    }
}

pub open spec fn spec_ui_check_next(s: UiCheck, p: ProbeStatus) -> UiCheck {
    match s {
        UiCheck::ProbeHttps => if p == ProbeStatus::Served {
            UiCheck::Use(true)
        } else {
            UiCheck::ProbeHttp
        },
        UiCheck::ProbeHttp => match p {
            ProbeStatus::Served => UiCheck::Use(false),
            ProbeStatus::NotFound => UiCheck::Fail(2),
            ProbeStatus::OtherStatus => UiCheck::Fail(3),
            ProbeStatus::Unreachable => UiCheck::Fail(4),
        },
        _ => s,
    }
}

pub open spec fn legacy_limit() -> Version {
    Version { major: 3, minor: 0, patch: 0, stage: Stage::Alpha(1) }
}

pub open spec fn spec_token_source(
    configured: bool,
    local_version: Option<Version>,
    is_dev_server: bool,
) -> TokenSource {
    if configured {
        TokenSource::Configured
    } else if local_version is Some {
        TokenSource::Generate { legacy: version_lt(local_version->0, legacy_limit()) }
    } else if is_dev_server {
        TokenSource::GenerateDev
    } else {
        TokenSource::NoToken
    }
}

impl UiCheck {
    pub fn start(no_server_check: bool, local_instance: bool) -> (r: UiCheck)
        ensures
            r == spec_ui_check_start(no_server_check, local_instance),
    {
        if no_server_check {
            UiCheck::Use(false)
        } else if !local_instance {
            UiCheck::ProbeHttps
        } else {
            UiCheck::ProbeHttp
        }
    }

    /// The step after a probe answered `p`.
    pub fn next(self, p: ProbeStatus) -> (r: UiCheck)
        ensures
            r == spec_ui_check_next(self, p),
    {
        match self {
            UiCheck::ProbeHttps => match p {
                ProbeStatus::Served => UiCheck::Use(true),
                _ => UiCheck::ProbeHttp,
            },
            UiCheck::ProbeHttp => match p {
                ProbeStatus::Served => UiCheck::Use(false),
                ProbeStatus::NotFound => UiCheck::Fail(2),
                ProbeStatus::OtherStatus => UiCheck::Fail(3),
                ProbeStatus::Unreachable => UiCheck::Fail(4),
            },
            s => s,
        }
    }
}

/// Where the UI token comes from: the configured secret key, else a token
/// signed for the local instance (legacy before 3.0-alpha.1), else one for
/// the development server, else none.
pub fn token_source(
    configured: bool,
    local_version: Option<Version>,
    is_dev_server: bool,
) -> (r: TokenSource)
    ensures
        r == spec_token_source(configured, local_version, is_dev_server),
{
    if configured {
        TokenSource::Configured
    } else if let Some(v) = local_version {
        let limit = Version { major: 3, minor: 0, patch: 0, stage: Stage::Alpha(1) };
        TokenSource::Generate { legacy: v.lt(&limit) }
    } else if is_dev_server {
        TokenSource::GenerateDev
    } else {
        TokenSource::NoToken
    }
}

/// The web UI address with the authentication token, when there is one.
pub fn local_ui_url(url: String, secret_key: &Option<String>) -> (r: String)
    ensures
        r@ == match secret_key {
            Some(k) => url@ + "?authToken="@ + k@,
            None => url@,
        },
{
    match secret_key {
        Some(k) => {
            let mut s = url;
            s.append("?authToken=");
            s.append(k.as_str());
            s
        },
        None => url,
    }
}

/// The token format of current servers: the signed token behind `edbt_`.
pub fn token_text(signed: &String) -> (r: String)
    ensures
        r@ == "edbt_"@ + signed@,
{
    let s = String::from_str("edbt_");
    s.concat(signed.as_str())
}

/// The address of a cloud instance in the default cloud partition.
pub fn cloud_ui_url(org: &String, name: &String) -> (r: String)
    ensures
        r@ == "https://cloud.edgedb.com/"@ + org@ + "/"@ + name@,
{
    let mut s = String::from_str("https://cloud.edgedb.com/");
    s.append(org.as_str());
    s.append("/");
    s.append(name.as_str());
    s
}

} // verus!

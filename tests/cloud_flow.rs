use base64::Engine;
use instance_upgrade::token::{
    concat_kdf_input, jwe_protected_header, jwe_token, jws_signing_input, jws_token,
};
use instance_upgrade::cloud::{
    upgrade_cloud, upgrade_cloud_cmd, CloudAction, CloudError, CloudEvent, CloudUpgrade,
    UpgradeAction,
};
use instance_upgrade::plan::{InstanceName, Upgrade};
use instance_upgrade::query::Query;
use instance_upgrade::ui::{cloud_ui_url, local_ui_url, token_source, token_text, ProbeStatus, TokenSource, UiCheck};
use instance_upgrade::version::{Stage, Version};

fn v(major: u64, minor: u64) -> Version {
    Version::new(major, minor, 0, Stage::Final)
}

/// Drives a cloud upgrade against an instance at `prior` with catalog answer
/// `target`; returns the machine and the upgrade requests sent.
fn drive(mut m: CloudUpgrade, prior: Option<Version>, target: Version, confirm: bool) -> (CloudUpgrade, Vec<(Version, bool)>) {
    let mut requests = Vec::new();
    for _ in 0..10 {
        let ev = match m.action() {
            CloudAction::Stop => return (m, requests),
            CloudAction::FindInstance => CloudEvent::Found(prior),
            CloudAction::ResolveVersion => CloudEvent::Resolved(target),
            CloudAction::Confirm(t) => {
                assert_eq!(t, target);
                CloudEvent::Answered(confirm)
            }
            CloudAction::RequestUpgrade(t, force) => {
                requests.push((t, force));
                CloudEvent::Succeeded
            }
        };
        m.advance(ev);
    }
    panic!("cloud upgrade did not end");
}

#[test]
fn cloud_up_to_date_makes_no_request() {
    let (m, requests) = drive(upgrade_cloud(false), Some(v(4, 1)), v(4, 1), true);
    let r = m.result().unwrap().unwrap();
    assert_eq!(r.action, UpgradeAction::UpToDate);
    assert_eq!(r.prior_version, v(4, 1));
    assert_eq!(r.requested_version, v(4, 1));
    assert_eq!(r.available_upgrade, None);
    assert!(requests.is_empty());
}

#[test]
fn cloud_declined_is_cancelled() {
    let (m, requests) = drive(upgrade_cloud(false), Some(v(4, 1)), v(5, 0), false);
    assert_eq!(m.result().unwrap().unwrap().action, UpgradeAction::Cancelled);
    assert!(requests.is_empty());
}

#[test]
fn cloud_confirmed_sends_one_request() {
    let (m, requests) = drive(upgrade_cloud(false), Some(v(4, 1)), v(5, 0), true);
    let r = m.result().unwrap().unwrap();
    assert_eq!(r.action, UpgradeAction::Upgraded);
    assert_eq!(r.requested_version, v(5, 0));
    assert_eq!(requests, vec![(v(5, 0), false)]);
}

#[test]
fn cloud_forced_same_version() {
    let (m, requests) = drive(upgrade_cloud(true), Some(v(4, 1)), v(4, 1), true);
    assert_eq!(m.result().unwrap().unwrap().action, UpgradeAction::Upgraded);
    assert_eq!(requests, vec![(v(4, 1), true)]);
}

#[test]
fn cloud_missing_instance() {
    let (m, requests) = drive(upgrade_cloud(false), None, v(5, 0), true);
    assert_eq!(m.result(), Some(Err(CloudError::InstanceNotFound)));
    assert!(requests.is_empty());
}

#[test]
fn cloud_request_failure() {
    let mut m = upgrade_cloud(false);
    m.advance(CloudEvent::Found(Some(v(4, 1))));
    m.advance(CloudEvent::Resolved(v(5, 0)));
    m.advance(CloudEvent::Answered(true));
    assert_eq!(m.action(), CloudAction::RequestUpgrade(v(5, 0), false));
    m.advance(CloudEvent::Failed);
    assert_eq!(m.result(), Some(Err(CloudError::UpgradeRequestFailed)));
    assert_eq!(m.action(), CloudAction::Stop);
}

#[test]
fn cloud_command_defaults_to_stable() {
    let cmd = Upgrade {
        name: Some(InstanceName::Cloud { org_slug: String::from("o"), name: String::from("i") }),
        instance: None,
        non_interactive: true,
        to_latest: false,
        to_nightly: false,
        to_testing: false,
        to_channel: None,
        to_version: None,
        force: true,
        force_dump_restore: false,
    };
    let (q, m) = upgrade_cloud_cmd(&cmd);
    assert_eq!(q, Query::stable());
    assert_eq!(m, upgrade_cloud(true));
}

#[test]
fn ui_check_decisions() {
    assert_eq!(UiCheck::start(true, false), UiCheck::Use(false));
    let s = UiCheck::start(false, false);
    assert_eq!(s, UiCheck::ProbeHttps);
    assert_eq!(s.next(ProbeStatus::Served), UiCheck::Use(true));
    assert_eq!(s.next(ProbeStatus::Unreachable), UiCheck::ProbeHttp);
    let h = UiCheck::start(false, true);
    assert_eq!(h, UiCheck::ProbeHttp);
    assert_eq!(h.next(ProbeStatus::Served), UiCheck::Use(false));
    assert_eq!(h.next(ProbeStatus::NotFound), UiCheck::Fail(2));
    assert_eq!(h.next(ProbeStatus::OtherStatus), UiCheck::Fail(3));
    assert_eq!(h.next(ProbeStatus::Unreachable), UiCheck::Fail(4));
}

#[test]
fn ui_token_source() {
    assert_eq!(token_source(true, Some(v(2, 0)), true), TokenSource::Configured);
    assert_eq!(token_source(false, Some(v(2, 9)), false), TokenSource::Generate { legacy: true });
    assert_eq!(
        token_source(false, Some(Version::new(3, 0, 0, Stage::Alpha(1))), false),
        TokenSource::Generate { legacy: false }
    );
    assert_eq!(token_source(false, None, true), TokenSource::GenerateDev);
    assert_eq!(token_source(false, None, false), TokenSource::NoToken);
}

#[test]
fn ui_urls() {
    let base = String::from("http://localhost:10700/ui");
    assert_eq!(
        local_ui_url(base.clone(), &Some(String::from("edbt_abc"))),
        "http://localhost:10700/ui?authToken=edbt_abc"
    );
    assert_eq!(local_ui_url(base.clone(), &None), base);
    assert_eq!(token_text(&String::from("a.b.c")), "edbt_a.b.c");
    assert_eq!(
        cloud_ui_url(&String::from("org"), &String::from("db")),
        "https://cloud.edgedb.com/org/db"
    );
}

#[test]
fn token_parts() {
    let input = jws_signing_input();
    assert_eq!(
        input,
        "eyJ0eXAiOiJKV1QiLCJhbGciOiJFUzI1NiJ9.eyJlZGdlZGIuc2VydmVyLmFueV9yb2xlIjp0cnVlfQ"
    );
    assert_eq!(jws_token(&String::from("a.b"), &[0xfb, 0xff]), "a.b.-_8");
    assert_eq!(
        jwe_token(&String::from("p"), &[1, 2, 3], &[], &[0xff]),
        "p..AQID.._w"
    );
    let mut epk = vec![4u8];
    epk.extend(std::iter::repeat(0u8).take(32));
    epk.extend(std::iter::repeat(255u8).take(32));
    let json = format!(
        "{{\"alg\":\"ECDH-ES\",\"enc\":\"A256GCM\",\"epk\":{{\"crv\":\"P-256\",\"kty\":\"EC\",\"x\":\"{}\",\"y\":\"{}\"}}}}",
        "AAAAAAAAAAAAAAAAAAAAAAAAAAAAAAAAAAAAAAAAAAA",
        "__________________________________________8"
    );
    let expected = base64::engine::general_purpose::URL_SAFE_NO_PAD.encode(json.as_bytes());
    assert_eq!(jwe_protected_header(&epk), expected);
    assert_eq!(
        concat_kdf_input(&[9, 8]),
        vec![0, 0, 0, 1, 9, 8, 0, 0, 0, 7, b'A', b'2', b'5', b'6', b'G', b'C', b'M', 0, 0, 0, 0, 0, 0, 0, 0, 0, 0, 1, 0]
    );
}

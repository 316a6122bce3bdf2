use instance_upgrade::query::{find_package, Channel, Query, QueryOptions};
use instance_upgrade::text::project_upgrade_command;
use instance_upgrade::version::{Stage, Version};

fn v(major: u64, minor: u64) -> Version {
    Version::new(major, minor, 0, Stage::Final)
}

fn no_options() -> QueryOptions {
    QueryOptions { stable: false, nightly: false, testing: false, channel: None, version: None }
}

#[test]
fn version_order_is_lexicographic() {
    assert!(v(2, 9).lt(&v(3, 0)));
    assert!(v(3, 0).lt(&v(3, 1)));
    assert!(Version::new(3, 1, 1, Stage::Final).lt(&Version::new(3, 1, 2, Stage::Final)));
    assert!(!v(3, 1).lt(&v(3, 1)));
    assert!(v(3, 1).le(&v(3, 1)));
    assert!(!v(4, 0).le(&v(3, 9)));
}

#[test]
fn prerelease_ranks_below_final() {
    let dev = Version::new(3, 0, 0, Stage::Dev(9000));
    let alpha = Version::new(3, 0, 0, Stage::Alpha(1));
    let beta = Version::new(3, 0, 0, Stage::Beta(2));
    let rc = Version::new(3, 0, 0, Stage::Rc(1));
    assert!(dev.lt(&alpha));
    assert!(alpha.lt(&beta));
    assert!(beta.lt(&rc));
    assert!(rc.lt(&v(3, 0)));
    assert!(Version::new(3, 0, 0, Stage::Alpha(1)).lt(&Version::new(3, 0, 0, Stage::Alpha(2))));
}

#[test]
fn compatibility_needs_same_major_final_builds() {
    assert!(v(3, 2).is_compatible(&v(3, 0)));
    assert!(!v(4, 0).is_compatible(&v(3, 5)));
    let rc = Version::new(4, 0, 0, Stage::Rc(1));
    assert!(!v(4, 0).is_compatible(&rc));
    assert!(rc.is_compatible(&rc));
}

#[test]
fn version_text() {
    assert_eq!(v(3, 1).to_string(), "3.1");
    assert_eq!(Version::new(10, 0, 12, Stage::Final).to_string(), "10.0.12");
    assert_eq!(Version::new(3, 0, 0, Stage::Alpha(1)).to_string(), "3.0-alpha.1");
    assert_eq!(Version::new(5, 0, 0, Stage::Dev(8123)).to_string(), "5.0-dev.8123");
    assert_eq!(Version::new(4, 0, 0, Stage::Rc(2)).to_string(), "4.0-rc.2");
}

#[test]
fn find_package_picks_greatest_match() {
    let catalog = vec![
        v(3, 1),
        v(4, 2),
        Version::new(5, 0, 0, Stage::Beta(1)),
        v(4, 5),
        v(3, 9),
        Version::new(5, 0, 0, Stage::Dev(7000)),
    ];
    let stable = Query::stable();
    assert_eq!(find_package(&catalog, &stable), Some(3));
    let major3 = Query::Latest { channel: Channel::Stable, major: Some(3) };
    assert_eq!(find_package(&catalog, &major3), Some(4));
    let testing = Query::Latest { channel: Channel::Testing, major: None };
    assert_eq!(find_package(&catalog, &testing), Some(2));
    let nightly = Query::Latest { channel: Channel::Nightly, major: None };
    assert_eq!(find_package(&catalog, &nightly), Some(5));
    assert_eq!(find_package(&catalog, &Query::Exact(v(4, 2))), Some(1));
}

#[test]
fn find_package_without_match() {
    let catalog = vec![v(3, 1), v(4, 2)];
    assert_eq!(find_package(&catalog, &Query::Exact(v(4, 3))), None);
    assert_eq!(find_package(&Vec::new(), &Query::stable()), None);
    let nightly = Query::Latest { channel: Channel::Nightly, major: None };
    assert_eq!(find_package(&catalog, &nightly), None);
}

#[test]
fn find_package_keeps_first_of_equal_entries() {
    let catalog = vec![v(4, 2), v(4, 2)];
    assert_eq!(find_package(&catalog, &Query::stable()), Some(0));
}

#[test]
fn query_options_precedence() {
    let default = Query::from_version(&v(3, 1));
    assert_eq!(default, Query::Latest { channel: Channel::Stable, major: Some(3) });
    assert_eq!(Query::from_options(&no_options(), default), (default, false));
    let mut o = no_options();
    o.version = Some(v(4, 1));
    o.channel = Some(Channel::Testing);
    assert_eq!(Query::from_options(&o, default), (Query::Exact(v(4, 1)), true));
    o.stable = true;
    assert_eq!(Query::from_options(&o, default), (Query::stable(), true));
    o.nightly = true;
    assert_eq!(
        Query::from_options(&o, default),
        (Query::Latest { channel: Channel::Nightly, major: None }, true)
    );
    let mut c = no_options();
    c.channel = Some(Channel::Testing);
    assert_eq!(
        Query::from_options(&c, default),
        (Query::Latest { channel: Channel::Testing, major: None }, true)
    );
}

#[test]
fn default_query_follows_current_build() {
    assert_eq!(
        Query::from_version(&Version::new(4, 0, 0, Stage::Beta(2))),
        Query::Latest { channel: Channel::Testing, major: Some(4) }
    );
    assert_eq!(
        Query::from_version(&Version::new(5, 0, 0, Stage::Dev(1))),
        Query::Latest { channel: Channel::Nightly, major: None }
    );
}

#[test]
fn project_command_lines() {
    let dir = String::from("/home/me/app");
    let other = Some(String::from("/home/me/other"));
    assert_eq!(
        project_upgrade_command(&Query::stable(), &other, &dir),
        "  edgedb project upgrade --to-latest --project-dir '/home/me/app'"
    );
    assert_eq!(
        project_upgrade_command(&Query::stable(), &Some(dir.clone()), &dir),
        "  edgedb project upgrade --to-latest"
    );
    assert_eq!(
        project_upgrade_command(&Query::Exact(v(4, 1)), &Some(dir.clone()), &dir),
        "  edgedb project upgrade --to-version=4.1"
    );
    let major = Query::Latest { channel: Channel::Stable, major: Some(3) };
    assert_eq!(
        project_upgrade_command(&major, &None, &dir),
        "  edgedb project upgrade --to-version=3 --project-dir '/home/me/app'"
    );
    let nightly = Query::Latest { channel: Channel::Nightly, major: None };
    assert_eq!(
        project_upgrade_command(&nightly, &Some(dir.clone()), &dir),
        "  edgedb project upgrade --to-nightly"
    );
    let testing = Query::Latest { channel: Channel::Testing, major: None };
    assert_eq!(
        project_upgrade_command(&testing, &Some(dir.clone()), &dir),
        "  edgedb project upgrade --to-testing"
    );
}

#[test]
fn parse_reads_written_text() {
    for v in [
        v(3, 1),
        Version::new(10, 0, 12, Stage::Final),
        Version::new(3, 0, 0, Stage::Alpha(1)),
        Version::new(5, 0, 0, Stage::Dev(8123)),
        Version::new(4, 2, 7, Stage::Beta(3)),
        Version::new(4, 0, 0, Stage::Rc(2)),
        Version::new(u64::MAX, 0, 0, Stage::Final),
    ] {
        assert_eq!(Version::parse(&v.to_string()), Some(v));
    }
    assert_eq!(Version::parse("5.2"), Some(v(5, 2)));
    assert_eq!(Version::parse("3.0-alpha.1"), Some(Version::new(3, 0, 0, Stage::Alpha(1))));
}

#[test]
fn parse_rejects_other_text() {
    for s in [
        "", "3", "3.", ".1", "3.1.", "3.1.0", "03.1", "3.01", "3.1-", "3.1-alpha", "3.1-alpha.",
        "3.1-gamma.1", "3.1-rc.1x", "3.1 ", "a.b", "18446744073709551616.0", "3.1.2.4",
    ] {
        assert_eq!(Version::parse(s), None, "{s:?}");
    }
}

use renovate_merge::version::{Op, VersionSpec};
use std::cmp::Ordering;

fn spec(text: &str) -> VersionSpec {
    VersionSpec::parse(text).expect("valid version text")
}

#[test]
fn exact_versions_follow_numeric_precedence() {
    assert_eq!(spec("1.2.0").partial_cmp(&spec("1.1.9")), Some(Ordering::Greater));
    assert_eq!(spec("1.1.9").partial_cmp(&spec("1.2.0")), Some(Ordering::Less));
    assert_eq!(spec("2.0.0").partial_cmp(&spec("1.99.99")), Some(Ordering::Greater));
    assert_eq!(spec("1.0.10").partial_cmp(&spec("1.0.9")), Some(Ordering::Greater));
    assert_eq!(spec("1.0.0").partial_cmp(&spec("1.0.0")), Some(Ordering::Equal));
}

#[test]
fn prerelease_is_below_release() {
    assert_eq!(spec("1.0.0-alpha").partial_cmp(&spec("1.0.0")), Some(Ordering::Less));
    assert_eq!(spec("1.0.0-alpha.1").partial_cmp(&spec("1.0.0-alpha.beta")), Some(Ordering::Less));
    assert_eq!(spec("1.0.0-beta.11").partial_cmp(&spec("1.0.0-beta.2")), Some(Ordering::Greater));
}

#[test]
fn build_metadata_is_ignored() {
    assert_eq!(spec("1.0.0+b").partial_cmp(&spec("1.0.0+a")), Some(Ordering::Equal));
    assert_eq!(spec("1.0.0").partial_cmp(&spec("1.0.0+a")), Some(Ordering::Equal));
    assert_eq!(spec("1.0.1+a").partial_cmp(&spec("1.0.0+z")), Some(Ordering::Greater));
}

#[test]
fn exact_against_caret_range() {
    // An exact version that the range matches is the greater side; one outside
    // the range is the lesser side.
    assert_eq!(spec("2.0.0").partial_cmp(&spec("^1")), Some(Ordering::Less));
    assert_eq!(spec("^1").partial_cmp(&spec("2.0.0")), Some(Ordering::Greater));
    assert_eq!(spec("1.5.0").partial_cmp(&spec("^1")), Some(Ordering::Greater));
    assert_eq!(spec("^1").partial_cmp(&spec("1.5.0")), Some(Ordering::Less));
}

#[test]
fn caret_ranges_compare_by_parts() {
    assert_eq!(spec("^1.2").partial_cmp(&spec("^1.3")), Some(Ordering::Less));
    assert!(spec("^1.3") > spec("^1.2"));
    assert_eq!(spec("^2").partial_cmp(&spec("^1.9.9")), Some(Ordering::Greater));
    assert_eq!(spec("^1.2.4").partial_cmp(&spec("^1.2.3")), Some(Ordering::Greater));
    assert_eq!(spec("^1.2").partial_cmp(&spec("^1.2.0")), None);
    assert_eq!(spec("^1.2.3").partial_cmp(&spec("^1.2.3")), None);
}

#[test]
fn other_ranges_are_incomparable() {
    assert_eq!(spec(">=1.0").partial_cmp(&spec("^1")), None);
    assert_eq!(spec("~1.2").partial_cmp(&spec("^1.3")), None);
    assert_eq!(spec(">=1.0, <2.0").partial_cmp(&spec("^1")), None);
}

#[test]
fn versionless_is_incomparable() {
    let none = VersionSpec::Versionless;
    assert_eq!(none.partial_cmp(&spec("1.0.0")), None);
    assert_eq!(spec("1.0.0").partial_cmp(&none), None);
    assert_eq!(none.partial_cmp(&spec("^1")), None);
    assert_eq!(spec("^1").partial_cmp(&none), None);
    assert_eq!(none.partial_cmp(&VersionSpec::Versionless), None);
    assert!(!(none > spec("0.0.1")));
    assert!(!(spec("99.0.0") > none));
}

#[test]
fn version_text_is_read_as_exact_or_range() {
    match spec("1.2.3-rc.1+build.5") {
        VersionSpec::Exact(v) => {
            assert_eq!((v.major, v.minor, v.patch), (1, 2, 3));
            assert_eq!(v.pre, "rc.1");
            assert_eq!(v.build, "build.5");
        }
        other => panic!("expected an exact version, got {:?}", other),
    }
    match spec("1.2") {
        VersionSpec::Range(r) => {
            assert_eq!(r.text, "1.2");
            assert_eq!(r.comparators.len(), 1);
            assert_eq!(r.comparators[0].op, Op::Caret);
            assert_eq!(r.comparators[0].major, 1);
            assert_eq!(r.comparators[0].minor, Some(2));
            assert_eq!(r.comparators[0].patch, None);
            assert_eq!(r.comparators[0].pre, "");
        }
        other => panic!("expected a range, got {:?}", other),
    }
    match spec(">=1.0, <2") {
        VersionSpec::Range(r) => {
            assert_eq!(r.comparators.len(), 2);
            assert_eq!(r.comparators[0].op, Op::GreaterEq);
            assert_eq!(r.comparators[1].op, Op::Less);
        }
        other => panic!("expected a range, got {:?}", other),
    }
    assert!(VersionSpec::parse("not a version").is_none());
    assert!(VersionSpec::parse("1.0.01").is_none());
}

#[test]
fn requirement_equality() {
    assert!(spec("1.2.3") == spec("1.2.3"));
    assert!(spec("1.2.3") != spec("1.2.3+b"));
    assert!(spec("1.2.3") != spec("1.2.4"));
    assert!(spec("^1.2") == spec("1.2"));
    assert!(spec("^1.2") != spec("^1.2.0"));
    assert!(spec(">=1.0.0-rc.1") != spec(">=1.0.0-rc.2"));
    assert!(spec("1.2.3") != spec("=1.2.3"));
    assert!(VersionSpec::Versionless != VersionSpec::Versionless);
}

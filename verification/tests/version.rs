use openebs_upgrade::version::{
    four_dot_o, four_dot_three, three_dot_four_dot_one, Threshold, Version, VersionError,
};

#[test]
fn parse_reads_the_three_numbers() {
    let v = Version::parse("3.5.0").unwrap();
    assert_eq!((v.major, v.minor, v.patch), (3, 5, 0));
    assert!(v.pre.is_empty());
    assert!(v.build.is_empty());
}

#[test]
fn parse_keeps_the_tags() {
    let v = Version::parse("4.0.0-rc.1+build.7").unwrap();
    assert_eq!((v.major, v.minor, v.patch), (4, 0, 0));
    assert_eq!(v.pre.as_str(), "rc.1");
    assert_eq!(v.build.as_str(), "build.7");
}

#[test]
fn parse_refuses_a_text_that_is_no_version() {
    assert_eq!(Version::parse("3.5").unwrap_err(), VersionError::Malformed);
    assert_eq!(Version::parse("").unwrap_err(), VersionError::Malformed);
    assert_eq!(Version::parse("4.0.01").unwrap_err(), VersionError::Malformed);
    assert_eq!(Version::parse("v4.0.0").unwrap_err(), VersionError::Malformed);
    assert_eq!(Version::parse("4.0.0-").unwrap_err(), VersionError::Malformed);
    assert_eq!(
        Version::parse("23456789999999999999.0.0").unwrap_err(),
        VersionError::Malformed
    );
}

#[test]
fn the_thresholds_are_the_three_releases() {
    assert_eq!(three_dot_four_dot_one(), Threshold { major: 3, minor: 4, patch: 1 });
    assert_eq!(four_dot_o(), Threshold { major: 4, minor: 0, patch: 0 });
    assert_eq!(four_dot_three(), Threshold { major: 4, minor: 3, patch: 0 });
}

#[test]
fn the_numbers_are_compared_from_left_to_right() {
    let t = Threshold { major: 4, minor: 3, patch: 0 };
    assert!(Version::parse("3.9.9").unwrap().is_below(&t));
    assert!(Version::parse("4.2.99").unwrap().is_below(&t));
    assert!(!Version::parse("4.3.0").unwrap().is_below(&t));
    assert!(!Version::parse("4.3.1").unwrap().is_below(&t));
    assert!(!Version::parse("4.10.0").unwrap().is_below(&t));
    assert!(!Version::parse("5.0.0").unwrap().is_below(&t));
    assert!(Version::parse("4.1.5").unwrap().is_below(&Threshold { major: 4, minor: 1, patch: 19 }));
}

#[test]
fn a_release_candidate_is_below_its_release() {
    let rc = Version::parse("4.0.0-rc.1").unwrap();
    assert!(rc.is_below(&four_dot_o()));
    let release = Version::parse("4.0.0").unwrap();
    assert!(!release.is_below(&four_dot_o()));
    assert!(!release.is_below(&three_dot_four_dot_one()));
}

#[test]
fn a_build_tag_does_not_put_a_version_below_its_release() {
    let tagged = Version::parse("4.0.0+nightly").unwrap();
    assert!(!tagged.is_below(&four_dot_o()));
    assert!(tagged.is_below(&four_dot_three()));
}

#[test]
fn a_copy_of_a_version_is_the_same_version() {
    let v = Version::parse("3.4.1-beta.2+x").unwrap();
    let copy = v.clone();
    assert_eq!((copy.major, copy.minor, copy.patch), (3, 4, 1));
    assert_eq!(copy.pre, v.pre);
    assert_eq!(copy.build, v.build);
}

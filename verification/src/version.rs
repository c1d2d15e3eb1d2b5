//! Semantic versions and the release thresholds they are compared against.

use vstd::prelude::*;

verus! {

/// The pre-release tag of a version, as the `semver` crate holds it.
#[verifier::external_type_specification]
#[verifier::external_body]
pub struct ExPrerelease(semver::Prerelease);

/// The build tag of a version, as the `semver` crate holds it.
#[verifier::external_type_specification]
#[verifier::external_body]
pub struct ExBuildMetadata(semver::BuildMetadata);

/// Why the `semver` crate refused a text as a version.
#[verifier::external_type_specification]
#[verifier::external_body]
pub struct ExParseError(semver::Error);

/// A semantic version: three numbers, a pre-release tag and a build tag.
///
/// The numbers are plain. The two tags are kept in the form the `semver`
/// crate gives them, and only that crate orders them.
#[derive(Debug)]
pub struct Version {
    pub major: u64,
    pub minor: u64,
    pub patch: u64,
    pub pre: semver::Prerelease,
    pub build: semver::BuildMetadata,
}

/// `Clone::clone` of `semver::Prerelease`: the copy is the same tag.
pub assume_specification[ <semver::Prerelease as Clone>::clone ](
    tag: &semver::Prerelease,
) -> (copy: semver::Prerelease)
    ensures
        copy == *tag,
;

/// `Clone::clone` of `semver::BuildMetadata`: the copy is the same tag.
pub assume_specification[ <semver::BuildMetadata as Clone>::clone ](
    tag: &semver::BuildMetadata,
) -> (copy: semver::BuildMetadata)
    ensures
        copy == *tag,
;

impl Clone for Version {
    fn clone(&self) -> (copy: Self)
        ensures
            copy == *self,
    {
        Version {
            major: self.major,
            minor: self.minor,
            patch: self.patch,
            pre: self.pre.clone(),
            build: self.build.clone(),
        }
    }
}

/// A release `major.minor.patch` without tags, at which upgrade behaviour changes.
#[derive(Clone, Copy, Debug, PartialEq, Eq, Structural)]
pub struct Threshold {
    pub major: u64,
    pub minor: u64,
    pub patch: u64,
}

/// Release 3.4.1, as a value of specifications.
pub open spec fn release_3_4_1() -> Threshold {
    Threshold { major: 3, minor: 4, patch: 1 }
}

/// Release 4.0.0, as a value of specifications.
pub open spec fn release_4_0_0() -> Threshold {
    Threshold { major: 4, minor: 0, patch: 0 }
}

/// Release 4.3.0, as a value of specifications.
pub open spec fn release_4_3_0() -> Threshold {
    Threshold { major: 4, minor: 3, patch: 0 }
}

/// Release 3.4.1: the first release that shipped the legacy log-store stack.
#[verifier::when_used_as_spec(release_3_4_1)]
pub fn three_dot_four_dot_one() -> (t: Threshold)
    ensures
        t == release_3_4_1(),
{
    Threshold { major: 3, minor: 4, patch: 1 }
}

/// Release 4.0.0: the first release of the fourth major line.
#[verifier::when_used_as_spec(release_4_0_0)]
pub fn four_dot_o() -> (t: Threshold)
    ensures
        t == release_4_0_0(),
{
    Threshold { major: 4, minor: 0, patch: 0 }
}

/// Release 4.3.0: the first release with the log store moved to the umbrella chart.
#[verifier::when_used_as_spec(release_4_3_0)]
pub fn four_dot_three() -> (t: Threshold)
    ensures
        t == release_4_3_0(),
{
    Threshold { major: 4, minor: 3, patch: 0 }
}

/// What `semver` answers to the question whether `v` orders before the
/// untagged release `t`.
pub uninterp spec fn semver_orders_before(v: Version, t: Threshold) -> bool;

/// Whether `v` orders before the untagged release `t`.
///
/// Where the numbers of the two differ, the numbers decide, compared from
/// left to right. Where they agree, the tags of `v` decide, and how they do is
/// left to `semver`.
pub open spec fn precedes(v: Version, t: Threshold) -> bool {
    if v.same_numbers(t) {
        semver_orders_before(v, t)
    } else {
        v.numbers_below(t)
    }
}

/// The version that `text` spells, or `None` where `text` is not a version.
pub uninterp spec fn parsed(text: Seq<char>) -> Option<Version>;

/// A text that could not be resolved to a version.
#[derive(Clone, Copy, Debug, PartialEq, Eq, Structural)]
pub enum VersionError {
    /// The text does not spell a semantic version.
    Malformed,
}

impl Version {
    /// Reads a version from its text, such as `4.3.0` or `4.0.0-rc.1`.
    pub fn parse(text: &str) -> (r: Result<Version, VersionError>)
        ensures
            r == match parsed(text@) {
                Some(v) => Ok::<Version, VersionError>(v),
                None => Err(VersionError::Malformed),
            },
    {
        match semver_parse(text) {
            Ok(v) => Ok(v),
            Err(_) => Err(VersionError::Malformed),
        }
    }

    /// Whether the three numbers of this version are those of `t`.
    pub open spec fn same_numbers(self, t: Threshold) -> bool {
        self.major == t.major && self.minor == t.minor && self.patch == t.patch
    }

    /// Whether the three numbers of this version come before those of `t`,
    /// compared from left to right.
    pub open spec fn numbers_below(self, t: Threshold) -> bool {
        self.major < t.major || (self.major == t.major && (self.minor < t.minor || (self.minor
            == t.minor && self.patch < t.patch)))
    }

    /// Whether this version orders before the release `t`.
    pub fn is_below(&self, t: &Threshold) -> (r: bool)
        ensures
            r == precedes(*self, *t),
    {
        semver_lt(self, t)
    }
}

/// `semver::Version::parse`, with the fields of its result moved into a
/// `Version`. Whether it succeeds, and with which version, is a function of
/// the text alone; the contract names that function and says no more of it.
#[verifier::external_body]
fn semver_parse(text: &str) -> (r: Result<Version, semver::Error>)
    ensures
        r is Ok <==> parsed(text@) is Some,
        r is Ok ==> parsed(text@) == Some(r->Ok_0),
{
    match semver::Version::parse(text) {
        Ok(v) => Ok(Version { major: v.major, minor: v.minor, patch: v.patch, pre: v.pre, build: v.build }),
        Err(e) => Err(e),
    }
}

/// `semver::Version`'s `<`, with `semver::Version::new` of the numbers of `t`
/// on the right-hand side.
///
/// The result is a function of the two versions. `semver` orders versions by
/// their fields in the order major, minor, patch, pre-release tag, build tag:
/// so where the numbers differ, the numbers alone decide, compared as a
/// triple from left to right. Where they agree, the tags decide, and the
/// contract says nothing of how.
#[verifier::external_body]
fn semver_lt(v: &Version, t: &Threshold) -> (r: bool)
    ensures
        r == semver_orders_before(*v, *t),
        !v.same_numbers(*t) ==> r == v.numbers_below(*t),
{
    let lhs = semver::Version {
        major: v.major,
        minor: v.minor,
        patch: v.patch,
        pre: v.pre.clone(),
        build: v.build.clone(),
    };
    lhs < semver::Version::new(t.major, t.minor, t.patch)
}

} // verus!

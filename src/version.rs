//! Semantic versions of the updater itself and the test for a newer release.

use vstd::prelude::*;

verus! {

#[verifier::external_type_specification]
#[verifier::external_body]
pub struct ExSemverError(semver::Error);

/// A semantic version as its parts: major, minor, patch, pre-release and build metadata.
pub struct Version {
    pub major: u64,
    pub minor: u64,
    pub patch: u64,
    pub pre: String,
    pub build: String,
}

impl View for Version {
    type V = (u64, u64, u64, Seq<char>, Seq<char>);

    open spec fn view(&self) -> (u64, u64, u64, Seq<char>, Seq<char>) {
        (self.major, self.minor, self.patch, self.pre@, self.build@)
    }
}

/// What `semver::Version::parse` makes of a string, as its parts; `None` when it refuses it.
pub uninterp spec fn semver_parse(s: Seq<char>) -> Option<(u64, u64, u64, Seq<char>, Seq<char>)>;

/// Whether the pre-release `a` orders before the pre-release `b`.
pub uninterp spec fn prerelease_before(a: Seq<char>, b: Seq<char>) -> bool;

/// Whether the build metadata `a` orders before the build metadata `b`.
pub uninterp spec fn build_before(a: Seq<char>, b: Seq<char>) -> bool;

/// Relies on `semver::Version::parse` to read a version string; the parts are copied out.
#[verifier::external_body]
fn parse_semver(s: &str) -> (r: Result<Version, semver::Error>)
    ensures
        r matches Ok(v) ==> semver_parse(s@) == Some(v@),
        r is Err ==> semver_parse(s@) is None,
{
    match semver::Version::parse(s) {
        Ok(v) => Ok(
            Version {
                major: v.major,
                minor: v.minor,
                patch: v.patch,
                pre: v.pre.as_str().to_string(),
                build: v.build.as_str().to_string(),
            },
        ),
        Err(e) => Err(e),
    }
}

/// Relies on `semver::Prerelease::new` and the ordering of `semver::Prerelease`.
#[verifier::external_body]
fn prerelease_lt(a: &str, b: &str) -> (r: bool)
    ensures
        r == prerelease_before(a@, b@),
{
    match (semver::Prerelease::new(a), semver::Prerelease::new(b)) {
        (Ok(x), Ok(y)) => x < y,
        _ => false,
    }
}

/// Relies on `semver::BuildMetadata::new` and the ordering of `semver::BuildMetadata`.
#[verifier::external_body]
fn build_lt(a: &str, b: &str) -> (r: bool)
    ensures
        r == build_before(a@, b@),
{
    match (semver::BuildMetadata::new(a), semver::BuildMetadata::new(b)) {
        (Ok(x), Ok(y)) => x < y,
        _ => false,
    }
}

/// Version `a` orders after version `b`: by major, minor and patch number, then by
/// pre-release, then by build metadata.
pub open spec fn is_newer(
    a: (u64, u64, u64, Seq<char>, Seq<char>),
    b: (u64, u64, u64, Seq<char>, Seq<char>),
) -> bool {
    if a.0 != b.0 {
        a.0 > b.0
    } else if a.1 != b.1 {
        a.1 > b.1
    } else if a.2 != b.2 {
        a.2 > b.2
    } else if a.3 != b.3 {
        prerelease_before(b.3, a.3)
    } else if a.4 != b.4 {
        build_before(b.4, a.4)
    } else {
        false
    }
}

/// A version string could not be read as a semantic version.
#[derive(Debug)]
pub struct VersionParseError {
    /// The string that was refused.
    pub text: String,
}

/// Reads a semantic version.
pub fn parse_version(s: &str) -> (r: Result<Version, VersionParseError>)
    ensures
        r matches Ok(v) ==> semver_parse(s@) == Some(v@),
        r matches Err(e) ==> semver_parse(s@) is None && e.text@ == s@,
{
    match parse_semver(s) {
        Ok(v) => Ok(v),
        Err(_) => Err(VersionParseError { text: s.to_owned() }),
    }
}

impl Version {
    /// Whether this version orders after `other`.
    pub fn newer_than(&self, other: &Version) -> (r: bool)
        ensures
            r == is_newer(self@, other@),
    {
        if self.major != other.major {
            self.major > other.major
        } else if self.minor != other.minor {
            self.minor > other.minor
        } else if self.patch != other.patch {
            self.patch > other.patch
        } else if !(self.pre == other.pre) {
            prerelease_lt(other.pre.as_str(), self.pre.as_str())
        } else if !(self.build == other.build) {
            build_lt(other.build.as_str(), self.build.as_str())
        } else {
            false
        }
    }
}

/// Whether `available` is a newer version than `installed`; an error names the string
/// that is not a semantic version (`available` is read first).
pub fn update_needed(available: &str, installed: &str) -> (r: Result<bool, VersionParseError>)
    ensures
        semver_parse(available@) is None ==> (r matches Err(e) && e.text@ == available@),
        semver_parse(available@) is Some && semver_parse(installed@) is None ==> (r matches Err(e)
            && e.text@ == installed@),
        semver_parse(available@) is Some && semver_parse(installed@) is Some ==> r == Ok::<
            bool,
            VersionParseError,
        >(is_newer(semver_parse(available@)->0, semver_parse(installed@)->0)),
{
    match parse_version(available) {
        Err(e) => Err(e),
        Ok(a) => match parse_version(installed) {
            Err(e) => Err(e),
            Ok(i) => Ok(a.newer_than(&i)),
        },
    }
}

/// Between two release versions (no pre-release, no build metadata) the newer one is
/// the one with the larger major number, then minor, then patch number.
pub proof fn lemma_release_order(
    a: (u64, u64, u64, Seq<char>, Seq<char>),
    b: (u64, u64, u64, Seq<char>, Seq<char>),
)
    requires
        a.3.len() == 0,
        a.4.len() == 0,
        b.3.len() == 0,
        b.4.len() == 0,
    ensures
        is_newer(a, b) <==> (a.0 > b.0 || (a.0 == b.0 && a.1 > b.1) || (a.0 == b.0 && a.1 == b.1
            && a.2 > b.2)),
{
    assert(a.3 =~= b.3);
    assert(a.4 =~= b.4);
}

} // verus!

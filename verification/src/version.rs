//! Semantic versions. Parsing and ordering are done by the `semver` crate
//! behind trusted wrappers; everything this library states about a version
//! goes through the names `semver_parse` and `semver_ge`.

use vstd::prelude::*;
use vstd::string::*;

use crate::Error;

verus! {

/// Mathematical content of a parsed semantic version: the numeric triple and
/// the canonical string form (without a leading `v`).
pub struct VersionView {
    pub major: u64,
    pub minor: u64,
    pub patch: u64,
    pub canon: Seq<char>,
}

/// What `semver::Version::parse` yields on a given string: `None` when the
/// string is not a valid semantic version, otherwise the numeric triple and
/// the canonical form. The result depends on the string alone.
pub uninterp spec fn semver_parse(s: Seq<char>) -> Option<VersionView>;

/// Whether the version written `a` is at least the version written `b` in the
/// `semver` crate's total order (semantic-versioning precedence, with build
/// metadata as the tie-breaker). Depends on the two strings alone.
pub uninterp spec fn semver_ge(a: Seq<char>, b: Seq<char>) -> bool;

/// A parsed semantic version.
#[derive(Debug)]
pub struct Version {
    major: u64,
    minor: u64,
    patch: u64,
    canon: String,
}

impl View for Version {
    type V = VersionView;

    closed spec fn view(&self) -> VersionView {
        VersionView {
            major: self.major,
            minor: self.minor,
            patch: self.patch,
            canon: self.canon@,
        }
    }
}

/// Relies on `semver::Version::parse`: a pure function of the string, `Err`
/// exactly when the string is not a valid semantic version. The parser is
/// strict (no leading zeros, no surrounding noise), so the canonical form of
/// a successfully parsed version is the parsed text itself.
#[verifier::external_body]
fn semver_parse_exec(s: &str) -> (r: Option<Version>)
    ensures
        match r {
            Some(v) => semver_parse(s@) == Some(v@) && v@.canon == s@,
            None => semver_parse(s@) is None,
        },
{
    match semver::Version::parse(s) {
        Ok(v) => Some(
            Version { major: v.major, minor: v.minor, patch: v.patch, canon: s.to_string() },
        ),
        Err(_) => None,
    }
}

/// Relies on `semver::Version::parse` and the `Ord` impl of
/// `semver::Version`: the order is a pure function of the two version
/// strings, and it is reflexive (a total order).
#[verifier::external_body]
fn semver_ge_exec(a: &str, b: &str) -> (r: bool)
    requires
        semver_parse(a@) is Some,
        semver_parse(b@) is Some,
    ensures
        r == semver_ge(a@, b@),
        a@ == b@ ==> r,
{
    let av = semver::Version::parse(a).unwrap();
    let bv = semver::Version::parse(b).unwrap();
    av >= bv
}

impl Version {
    #[verifier::type_invariant]
    spec fn wf(self) -> bool {
        semver_parse(self.canon@) == Some(self@)
    }

    /// Parse a semantic-version string such as `1.2.3` or `1.0.0-beta.1`.
    pub fn parse(s: &str) -> (r: Result<Version, Error>)
        ensures
            match r {
                Ok(v) => semver_parse(s@) == Some(v@) && v@.canon == s@,
                Err(e) => semver_parse(s@) is None && e is Parse,
            },
    {
        match semver_parse_exec(s) {
            Some(v) => Ok(v),
            None => Err(Error::Parse(String::from_str("invalid semantic version"))),
        }
    }

    pub fn major(&self) -> (r: u64)
        ensures
            r == self@.major,
    {
        self.major
    }

    pub fn minor(&self) -> (r: u64)
        ensures
            r == self@.minor,
    {
        self.minor
    }

    pub fn patch(&self) -> (r: u64)
        ensures
            r == self@.patch,
    {
        self.patch
    }

    /// The canonical `major.minor.patch[-pre][+build]` form.
    pub fn as_str(&self) -> (r: &str)
        ensures
            r@ == self@.canon,
    {
        self.canon.as_str()
    }

    /// `self` is at least `other` in semantic-version order.
    pub fn ge(&self, other: &Version) -> (r: bool)
        ensures
            r == semver_ge(self@.canon, other@.canon),
            self@.canon == other@.canon ==> r,
    {
        proof {
            use_type_invariant(self);
            use_type_invariant(other);
        }
        semver_ge_exec(self.canon.as_str(), other.canon.as_str())
    }

    /// A copy with the same content.
    pub fn duplicate(&self) -> (r: Version)
        ensures
            r@ == self@,
    {
        proof {
            use_type_invariant(self);
        }
        Version {
            major: self.major,
            minor: self.minor,
            patch: self.patch,
            canon: self.canon.clone(),
        }
    }
}

} // verus!

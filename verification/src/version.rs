//! The archive version requirement: a caret constraint on the running
//! package's major and minor version, followed by the exact version.

use vstd::prelude::*;

use crate::error::SetupError;
use crate::text::spec_dec;
use crate::text::u64_to_string;
use vstd::string::StringExecFns;

verus! {

/// What the semantic-version parser yields for a version string: the major
/// and minor numbers and the canonical rendering; `None` when the string is
/// not a valid semantic version.
pub uninterp spec fn semver_parts(s: Seq<char>) -> Option<(u64, u64, Seq<char>)>;

/// Relies on semver's `Version::parse` and the `Display` rendering of the
/// parsed version, which depend on the version string alone.
#[verifier::external_body]
fn parse_semver(s: &str) -> (r: Option<(u64, u64, String)>)
    ensures
        r is Some <==> semver_parts(s@) is Some,
        r matches Some(p) ==> semver_parts(s@) matches Some(q) && p.0 == q.0 && p.1 == q.1 && p.2@
            == q.2,
{
    match semver::Version::parse(s) {
        Ok(v) => Some((v.major, v.minor, format!("{}", v))),
        Err(_) => None,
    }
}

/// The version requirement accompanying each contract archive lookup:
/// `^<major>.<minor>, <version>`.
pub open spec fn spec_version_requirement(major: u64, minor: u64, full: Seq<char>) -> Seq<char> {
    "^"@ + spec_dec(major as nat) + "."@ + spec_dec(minor as nat) + ", "@ + full
}

/// Renders the version requirement for the running package version; errors
/// when that string is not a valid semantic version.
pub fn version_requirement(pkg_version: &str) -> (r: Result<String, SetupError>)
    ensures
        r is Ok <==> semver_parts(pkg_version@) is Some,
        r matches Ok(s) ==> semver_parts(pkg_version@) matches Some(p) && s@
            == spec_version_requirement(p.0, p.1, p.2),
        r matches Err(e) ==> e is InvalidVersion,
{
    match parse_semver(pkg_version) {
        Some((major, minor, full)) => {
            let s = "^".to_owned().concat(u64_to_string(major).as_str()).concat(".").concat(
                u64_to_string(minor).as_str(),
            ).concat(", ").concat(full.as_str());
            Ok(s)
        },
        None => Err(
            SetupError::InvalidVersion("could not parse the running package version".to_owned()),
        ),
    }
}

} // verus!

//! The SDK's own version, and whether a host of a given version can load
//! plugins built against it.

use vstd::prelude::*;

verus! {

/// Current SDK version.
pub const SDK_VERSION: &'static str = "1.0.0";

/// Minimum supported host version.
pub const MIN_HOST_VERSION: &'static str = "1.0.0";

/// Plugin ABI version for compatibility checking.
pub const ABI_VERSION: u32 = 1;

/// What `semver::Version::parse` makes of a text: major, minor and patch of
/// the version it reads, or `None` where it refuses the text.
pub uninterp spec fn semver_core(text: Seq<char>) -> Option<(u64, u64, u64)>;

/// Whether `semver::VersionReq::parse` accepts a text as a version requirement.
pub uninterp spec fn semver_req_accepts(text: Seq<char>) -> bool;

/// Reads a semantic version with `semver::Version::parse` and keeps its
/// major, minor and patch numbers. The contract only names the outcome: the
/// grammar semver accepts is not restated here.
#[verifier::external_body]
pub(crate) fn parse_semver(text: &str) -> (r: Option<(u64, u64, u64)>)
    ensures
        r == semver_core(text@),
{
    match semver::Version::parse(text) {
        Ok(v) => Some((v.major, v.minor, v.patch)),
        Err(_) => None,
    }
}

/// Whether `semver::VersionReq::parse` accepts a text. The contract only
/// names the outcome: the grammar semver accepts is not restated here.
#[verifier::external_body]
pub(crate) fn accepts_semver_req(text: &str) -> (r: bool)
    ensures
        r == semver_req_accepts(text@),
{
    semver::VersionReq::parse(text).is_ok()
}

/// A host is compatible when both versions could be read, the majors agree
/// and the host's minor is at least one below the SDK's (no lower than 0).
pub open spec fn sdk_compatible(host: Option<(u64, u64, u64)>, sdk: Option<(u64, u64, u64)>) -> bool {
    match (host, sdk) {
        (Some(h), Some(s)) => h.0 == s.0 && h.1 >= (if s.1 == 0 { 0 } else { s.1 - 1 }),
        _ => false,
    }
}

/// Compatibility of a host version with an SDK version, both already read.
pub fn versions_compatible(host: Option<(u64, u64, u64)>, sdk: Option<(u64, u64, u64)>) -> (r: bool)
    ensures
        r == sdk_compatible(host, sdk),
{
    match (host, sdk) {
        (Some(h), Some(s)) => h.0 == s.0 && h.1 >= s.1.saturating_sub(1),
        _ => false,
    }
}

/// Whether a host of the given version can load plugins built with this SDK.
pub fn is_compatible(host_version: &str) -> (r: bool)
    ensures
        r == sdk_compatible(semver_core(host_version@), semver_core(SDK_VERSION@)),
{
    let host = parse_semver(host_version);
    let sdk = parse_semver(SDK_VERSION);
    versions_compatible(host, sdk)
}

} // verus!

//! Semantic versions of plugins and the requirements that plugins place on
//! each other, read and compared by the `semver` crate.
use vstd::prelude::*;

verus! {

#[verifier::external_type_specification]
#[verifier::external_body]
pub struct ExSemverVersion(semver::Version);

#[verifier::external_type_specification]
#[verifier::external_body]
pub struct ExSemverVersionReq(semver::VersionReq);

#[verifier::external_type_specification]
#[verifier::external_body]
pub struct ExSemverError(semver::Error);

/// Whether `semver::Version::parse` accepts this text.
pub uninterp spec fn semver_version_parses(text: Seq<char>) -> bool;

/// Whether `semver::VersionReq::parse` accepts this text.
pub uninterp spec fn semver_requirement_parses(text: Seq<char>) -> bool;

/// Whether the requirement read from the first text matches the version read
/// from the second (`semver::VersionReq::matches`).
pub uninterp spec fn semver_requirement_matches(requirement: Seq<char>, version: Seq<char>) -> bool;

/// `semver::Version::parse`: succeeds exactly on the texts that
/// `semver_version_parses` names; the parsed value itself is kept opaque.
#[verifier::external_body]
fn parse_semver_version(text: &str) -> (r: Result<semver::Version, semver::Error>)
    ensures
        r is Ok <==> semver_version_parses(text@),
{
    semver::Version::parse(text)
}

/// `semver::VersionReq::parse`: succeeds exactly on the texts that
/// `semver_requirement_parses` names; the parsed value itself is kept opaque.
#[verifier::external_body]
fn parse_semver_requirement(text: &str) -> (r: Result<semver::VersionReq, semver::Error>)
    ensures
        r is Ok <==> semver_requirement_parses(text@),
{
    semver::VersionReq::parse(text)
}

/// A version that `semver` accepted, together with the text it was read from.
/// Values of this type are only made by `PluginVersion::parse`.
pub struct PluginVersion {
    text: String,
    parsed: semver::Version,
}

/// A version requirement that `semver` accepted, together with its text.
/// Values of this type are only made by `VersionRequirement::parse`.
pub struct VersionRequirement {
    text: String,
    parsed: semver::VersionReq,
}

impl View for PluginVersion {
    type V = Seq<char>;

    closed spec fn view(&self) -> Seq<char> {
        self.text@
    }
}

impl View for VersionRequirement {
    type V = Seq<char>;

    closed spec fn view(&self) -> Seq<char> {
        self.text@
    }
}

impl PluginVersion {
    /// Reads a semantic version; `None` exactly when `semver` rejects the text.
    pub fn parse(text: &str) -> (r: Option<PluginVersion>)
        ensures
            r is Some <==> semver_version_parses(text@),
            r matches Some(v) ==> v@ == text@,
    {
        match parse_semver_version(text) {
            Ok(parsed) => Some(PluginVersion { text: text.to_owned(), parsed }),
            Err(_) => None,
        }
    }
}

impl VersionRequirement {
    /// Reads a version requirement; `None` exactly when `semver` rejects the text.
    pub fn parse(text: &str) -> (r: Option<VersionRequirement>)
        ensures
            r is Some <==> semver_requirement_parses(text@),
            r matches Some(v) ==> v@ == text@,
    {
        match parse_semver_requirement(text) {
            Ok(parsed) => Some(VersionRequirement { text: text.to_owned(), parsed }),
            Err(_) => None,
        }
    }

    /// Whether `version` satisfies this requirement.
    pub fn matches(&self, version: &PluginVersion) -> (r: bool)
        ensures
            r == semver_requirement_matches(self@, version@),
    {
        requirement_matches(self, version)
    }
}

/// `semver::VersionReq::matches` on the values parsed from the two texts; its
/// result is named by `semver_requirement_matches` on those texts.
#[verifier::external_body]
fn requirement_matches(requirement: &VersionRequirement, version: &PluginVersion) -> (r: bool)
    ensures
        r == semver_requirement_matches(requirement@, version@),
{
    requirement.parsed.matches(&version.parsed)
}

} // verus!

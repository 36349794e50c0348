//! Semantic versions of releases, read from release names and from the version storage file.

use vstd::prelude::*;
use vstd::utf8::{decode_utf8, valid_utf8};
use crate::text::{trim_leading, trim_leading_char, trim_trailing, trim_trailing_white_space};

verus! {

#[verifier::external_type_specification]
#[verifier::external_body]
pub struct ExSemverVersion(semver::Version);

/// A semantic version: the plain fields that the rules read, and the parsed value itself, which
/// the comparisons hand to the semver crate. The fields are private, so they stay those of the
/// parsed value they were read from.
#[derive(Debug)]
pub struct ReleaseVersion {
    /// The major version.
    major: u64,
    /// The minor version.
    minor: u64,
    /// The patch version.
    patch: u64,
    /// The pre-release identifiers, as written (empty for none).
    pre: String,
    /// The build metadata, as written (empty for none).
    build: String,
    /// The parsed value these fields were read from.
    parsed: semver::Version,
}

/// The abstract value of a semantic version.
pub struct VersionModel {
    /// The major version.
    pub major: u64,
    /// The minor version.
    pub minor: u64,
    /// The patch version.
    pub patch: u64,
    /// The pre-release identifiers.
    pub pre: Seq<char>,
    /// The build metadata.
    pub build: Seq<char>,
}

impl View for ReleaseVersion {
    type V = VersionModel;

    closed spec fn view(&self) -> VersionModel {
        VersionModel {
            major: self.major,
            minor: self.minor,
            patch: self.patch,
            pre: self.pre@,
            build: self.build@,
        }
    }
}

impl ReleaseVersion {
    /// The major version.
    pub fn major(&self) -> (major: u64)
        ensures
            major == self@.major,
    {
        self.major
    }

    /// The minor version.
    pub fn minor(&self) -> (minor: u64)
        ensures
            minor == self@.minor,
    {
        self.minor
    }

    /// The patch version.
    pub fn patch(&self) -> (patch: u64)
        ensures
            patch == self@.patch,
    {
        self.patch
    }

    /// The pre-release identifiers, as written (empty for none).
    pub fn pre(&self) -> (pre: &str)
        ensures
            pre@ == self@.pre,
    {
        self.pre.as_str()
    }

    /// The build metadata, as written (empty for none).
    pub fn build(&self) -> (build: &str)
        ensures
            build@ == self@.build,
    {
        self.build.as_str()
    }
}

/// The semantic version the semver crate reads from a text, if the text is one.
pub uninterp spec fn parsed_version(text: Seq<char>) -> Option<VersionModel>;

/// Whether the semver crate orders the first version after the second.
pub uninterp spec fn version_newer(next: VersionModel, current: VersionModel) -> bool;

/// Reads a semantic version from a text.
///
/// Calls `semver::Version::parse`; the claim is that the outcome depends on the text alone and
/// that the fields are those of the parsed value.
#[verifier::external_body]
fn parse_semver(text: &str) -> (version: Option<ReleaseVersion>)
    ensures
        match version {
            Some(v) => parsed_version(text@) == Some(v@),
            None => parsed_version(text@) is None,
        },
{
    match semver::Version::parse(text) {
        Ok(parsed) => Some(ReleaseVersion {
            major: parsed.major,
            minor: parsed.minor,
            patch: parsed.patch,
            pre: parsed.pre.as_str().to_string(),
            build: parsed.build.as_str().to_string(),
            parsed,
        }),
        Err(_) => None,
    }
}

/// Whether `next` comes after `current`.
///
/// Calls `<semver::Version as PartialOrd>::gt`. The order is derived field by field, so the
/// claim includes that major, minor and patch decide first, in that order, and that no version
/// comes after itself; how pre-release and build identifiers are ordered is left to the name.
#[verifier::external_body]
pub(crate) fn is_newer(next: &ReleaseVersion, current: &ReleaseVersion) -> (newer: bool)
    ensures
        newer == version_newer(next@, current@),
        next@.major != current@.major ==> newer == (next@.major > current@.major),
        next@.major == current@.major && next@.minor != current@.minor ==> newer == (next@.minor
            > current@.minor),
        next@.major == current@.major && next@.minor == current@.minor && next@.patch
            != current@.patch ==> newer == (next@.patch > current@.patch),
        next@ == current@ ==> !newer,
{
    next.parsed > current.parsed
}

/// Decodes bytes as utf-8 text.
///
/// Calls `String::from_utf8`, which accepts exactly the valid utf-8 encodings.
#[verifier::external_body]
fn text_from_utf8(bytes: Vec<u8>) -> (text: Option<String>)
    ensures
        match text {
            Some(t) => valid_utf8(bytes@) && t@ == decode_utf8(bytes@),
            None => !valid_utf8(bytes@),
        },
{
    String::from_utf8(bytes).ok()
}

/// The part of a release name that is read as a semantic version: the name without its leading
/// `v`s.
pub open spec fn release_version_text(name: Seq<char>) -> Seq<char> {
    trim_leading(name, 'v')
}

/// The part of the version storage file that is read as a semantic version: the text without
/// its leading `v`s and its trailing white space.
pub open spec fn stored_version_text(text: Seq<char>) -> Seq<char> {
    trim_trailing_white_space(trim_leading(text, 'v'))
}

/// The version recorded in the contents of the version storage file, if they are utf-8 text that
/// reads as one.
pub open spec fn spec_stored_version(data: Seq<u8>) -> Option<VersionModel> {
    if valid_utf8(data) {
        parsed_version(stored_version_text(decode_utf8(data)))
    } else {
        None
    }
}

/// Reads the version of a release from its name, ignoring the name's leading `v`s.
pub fn release_version(name: &str) -> (version: Option<ReleaseVersion>)
    ensures
        match version {
            Some(v) => parsed_version(release_version_text(name@)) == Some(v@),
            None => parsed_version(release_version_text(name@)) is None,
        },
{
    let text = trim_leading_char(name, 'v');
    parse_semver(text.as_str())
}

/// Reads the version recorded in the contents of the version storage file.
pub fn stored_version(data: Vec<u8>) -> (version: Option<ReleaseVersion>)
    ensures
        match version {
            Some(v) => spec_stored_version(data@) == Some(v@),
            None => spec_stored_version(data@) is None,
        },
{
    match text_from_utf8(data) {
        Some(text) => {
            let unprefixed = trim_leading_char(text.as_str(), 'v');
            let trimmed = trim_trailing(unprefixed.as_str());
            parse_semver(trimmed.as_str())
        },
        None => None,
    }
}

} // verus!

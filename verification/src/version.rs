//! Semantic versions, as specs, tool sets and harnesses carry them.

use vstd::prelude::*;

use crate::text::{all_digits, decimal_value};

verus! {

/// `semver::Error`, the parse error of `semver`, carried through opaque.
#[verifier::external_type_specification]
#[verifier::external_body]
pub struct ExSemverError(semver::Error);

/// A semantic version: three numbers, a pre-release tag and build
/// metadata (each tag empty where absent).
#[derive(Debug)]
pub struct SemVersion {
    pub major: u64,
    pub minor: u64,
    pub patch: u64,
    pub pre: String,
    pub build: String,
}

pub struct VersionModel {
    pub major: u64,
    pub minor: u64,
    pub patch: u64,
    pub pre: Seq<char>,
    pub build: Seq<char>,
}

impl View for SemVersion {
    type V = VersionModel;

    open spec fn view(&self) -> VersionModel {
        VersionModel {
            major: self.major,
            minor: self.minor,
            patch: self.patch,
            pre: self.pre@,
            build: self.build@,
        }
    }
}

/// A numeric part of a version as `semver` reads one: decimal digits,
/// without a leading zero unless the part is `0` alone, with a value that
/// fits in 64 bits.
pub open spec fn numeric_part(d: Seq<char>) -> bool {
    &&& d.len() > 0
    &&& all_digits(d)
    &&& (d[0] == '0' ==> d.len() == 1)
    &&& decimal_value(d) <= u64::MAX
}

/// The text `major.minor.patch` of three parts.
pub open spec fn core_version_text(major: Seq<char>, minor: Seq<char>, patch: Seq<char>) -> Seq<char> {
    major + seq!['.'] + minor + seq!['.'] + patch
}

/// A version written as three numeric parts and nothing else is read as
/// those three numbers, with no pre-release tag and no build metadata.
pub open spec fn reads_core_version(text: Seq<char>, r: Option<VersionModel>) -> bool {
    forall|a: Seq<char>, b: Seq<char>, c: Seq<char>|
        numeric_part(a) && numeric_part(b) && numeric_part(c) && #[trigger] core_version_text(a, b, c)
            == text ==> (r matches Some(v) && v.major == decimal_value(a) && v.minor == decimal_value(b)
            && v.patch == decimal_value(c) && v.pre.len() == 0 && v.build.len() == 0)
}

/// What `semver::Version::parse` reads from a text: `None` where the text
/// is not a semantic version.
pub uninterp spec fn semver_parse(text: Seq<char>) -> Option<VersionModel>;

/// Calls `semver::Version::parse`. The contract claims that the outcome is
/// a function of the text, `semver_parse`, with the version's numbers and
/// its pre-release and build tags as `semver` holds them; and, as
/// `semver`'s parser shows (`numeric_identifier` for each of the three
/// parts, then `Version::new` when nothing follows), that a text of three
/// numeric parts joined by dots is read as those numbers with empty tags.
#[verifier::external_body]
fn semver_version_parse(text: &str) -> (r: Result<SemVersion, semver::Error>)
    ensures
        match r {
            Ok(v) => semver_parse(text@) == Some(v@),
            Err(_) => semver_parse(text@) is None,
        },
        reads_core_version(
            text@,
            match r {
                Ok(v) => Some(v@),
                Err(_) => None,
            },
        ),
{
    match semver::Version::parse(text) {
        Ok(v) => Ok(
            SemVersion {
                major: v.major,
                minor: v.minor,
                patch: v.patch,
                pre: v.pre.as_str().to_string(),
                build: v.build.as_str().to_string(),
            },
        ),
        Err(e) => Err(e),
    }
}

/// Calls `semver::Error`'s `Display`; nothing is claimed of the message.
#[verifier::external_body]
fn semver_error_text(e: &semver::Error) -> String {
    e.to_string()
}

/// A text that is not a semantic version, with the parser's explanation.
#[derive(Debug)]
pub struct VersionError {
    pub message: String,
}

/// Reads a semantic version.
pub fn parse_version(s: &str) -> (r: Result<SemVersion, VersionError>)
    ensures
        match r {
            Ok(v) => semver_parse(s@) == Some(v@),
            Err(_) => semver_parse(s@) is None,
        },
        reads_core_version(
            s@,
            match r {
                Ok(v) => Some(v@),
                Err(_) => None,
            },
        ),
{
    match semver_version_parse(s) {
        Ok(v) => Ok(v),
        Err(e) => Err(VersionError { message: semver_error_text(&e) }),
    }
}

} // verus!

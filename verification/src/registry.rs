//! Artifacts published to the in-memory registry: what a publication is
//! checked for and the record it produces.

use vstd::prelude::*;
use vstd::string::StringExecFns;

use crate::json::JsonValue;
use crate::memory::now_millis;
use crate::names::{artifact_kind_from_str, artifact_kind_named, ArtifactKind, UnknownName};
use crate::version::{parse_version, semver_parse, SemVersion, VersionError};

verus! {

/// A published artifact.
#[derive(Debug)]
pub struct ArtifactRecord {
    pub kind: ArtifactKind,
    pub id: String,
    pub version: SemVersion,
    pub payload: JsonValue,
    pub published_at_ms: i64,
}

/// Why a publication is refused.
#[derive(Debug)]
pub enum PublishError {
    UnknownKind { error: UnknownName },
    BadVersion { version_error: VersionError },
}

/// Checks what a publication names, the kind before the version.
pub fn check_artifact(kind: &str, version: &str) -> (r: Result<(ArtifactKind, SemVersion), PublishError>)
    ensures
        match r {
            Ok((k, v)) => artifact_kind_named(kind@) == Some(k) && semver_parse(version@) == Some(v@),
            Err(PublishError::UnknownKind { error }) => artifact_kind_named(kind@) is None
                && error.name@ == kind@,
            Err(PublishError::BadVersion { .. }) => artifact_kind_named(kind@) is Some && semver_parse(
                version@,
            ) is None,
        },
{
    let k = match artifact_kind_from_str(kind) {
        Some(k) => k,
        None => return Err(PublishError::UnknownKind { error: UnknownName { name: String::from_str(kind) } }),
    };
    match parse_version(version) {
        Ok(v) => Ok((k, v)),
        Err(e) => Err(PublishError::BadVersion { version_error: e }),
    }
}

/// The record of a publication, stamped with the current time.
pub fn new_record(kind: ArtifactKind, id: String, version: SemVersion, payload: JsonValue) -> (r: ArtifactRecord)
    ensures
        r.kind == kind,
        r.id@ == id@,
        r.version@ == version@,
        r.payload@ == payload@,
{
    ArtifactRecord { kind, id, version, payload, published_at_ms: now_millis() }
}

} // verus!

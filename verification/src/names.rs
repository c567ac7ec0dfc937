//! Name tables: the names by which Python code refers to artifact kinds,
//! persona types, audio formats, hook timings, message roles, sandbox
//! profiles and speech-harness settings.

use vstd::prelude::*;
use vstd::string::StringExecFns;

use crate::text::{lemma_case_maps_seq, lowered, str_eq, to_ascii_lower, to_ascii_upper, uppered};
use crate::version::{parse_version, semver_parse, SemVersion, VersionError};

verus! {

/// A name that a table of names does not hold.
#[derive(Debug)]
pub struct UnknownName {
    pub name: String,
}

/// The kind of a registry artifact.
#[derive(Debug, Clone, Copy, PartialEq, Eq, Structural)]
pub enum ArtifactKind {
    ToolSet,
    Skill,
    Persona,
    Agent,
    Workflow,
    Harness,
    HarnessSet,
    Channel,
    Avatar,
}

/// The name of each artifact kind.
pub open spec fn artifact_kind_name(k: ArtifactKind) -> Seq<char> {
    match k {
        ArtifactKind::ToolSet => "tool_set"@,
        ArtifactKind::Skill => "skill"@,
        ArtifactKind::Persona => "persona"@,
        ArtifactKind::Agent => "agent"@,
        ArtifactKind::Workflow => "workflow"@,
        ArtifactKind::Harness => "harness"@,
        ArtifactKind::HarnessSet => "harness_set"@,
        ArtifactKind::Channel => "channel"@,
        ArtifactKind::Avatar => "avatar"@,
    }
}

/// The artifact kind that a name stands for, if any.
pub open spec fn artifact_kind_named(s: Seq<char>) -> Option<ArtifactKind> {
    if s == "tool_set"@ {
        Some(ArtifactKind::ToolSet)
    } else if s == "skill"@ {
        Some(ArtifactKind::Skill)
    } else if s == "persona"@ {
        Some(ArtifactKind::Persona)
    } else if s == "agent"@ {
        Some(ArtifactKind::Agent)
    } else if s == "workflow"@ {
        Some(ArtifactKind::Workflow)
    } else if s == "harness"@ {
        Some(ArtifactKind::Harness)
    } else if s == "harness_set"@ {
        Some(ArtifactKind::HarnessSet)
    } else if s == "channel"@ {
        Some(ArtifactKind::Channel)
    } else if s == "avatar"@ {
        Some(ArtifactKind::Avatar)
    } else {
        None
    }
}

pub fn artifact_kind_to_str(k: ArtifactKind) -> (r: &'static str)
    ensures
        r@ == artifact_kind_name(k),
{
    match k {
        ArtifactKind::ToolSet => "tool_set",
        ArtifactKind::Skill => "skill",
        ArtifactKind::Persona => "persona",
        ArtifactKind::Agent => "agent",
        ArtifactKind::Workflow => "workflow",
        ArtifactKind::Harness => "harness",
        ArtifactKind::HarnessSet => "harness_set",
        ArtifactKind::Channel => "channel",
        ArtifactKind::Avatar => "avatar",
    }
}

pub fn artifact_kind_from_str(s: &str) -> (r: Option<ArtifactKind>)
    ensures
        r == artifact_kind_named(s@),
{
    if str_eq(s, "tool_set") {
        Some(ArtifactKind::ToolSet)
    } else if str_eq(s, "skill") {
        Some(ArtifactKind::Skill)
    } else if str_eq(s, "persona") {
        Some(ArtifactKind::Persona)
    } else if str_eq(s, "agent") {
        Some(ArtifactKind::Agent)
    } else if str_eq(s, "workflow") {
        Some(ArtifactKind::Workflow)
    } else if str_eq(s, "harness") {
        Some(ArtifactKind::Harness)
    } else if str_eq(s, "harness_set") {
        Some(ArtifactKind::HarnessSet)
    } else if str_eq(s, "channel") {
        Some(ArtifactKind::Channel)
    } else if str_eq(s, "avatar") {
        Some(ArtifactKind::Avatar)
    } else {
        None
    }
}

/// The fixed name of each artifact kind, and each name read back as
/// its own artifact kind.
pub proof fn law_artifact_kind_names()
    ensures
        artifact_kind_name(ArtifactKind::ToolSet) == "tool_set"@,
        artifact_kind_named("tool_set"@) == Some(ArtifactKind::ToolSet),
        artifact_kind_name(ArtifactKind::Skill) == "skill"@,
        artifact_kind_named("skill"@) == Some(ArtifactKind::Skill),
        artifact_kind_name(ArtifactKind::Persona) == "persona"@,
        artifact_kind_named("persona"@) == Some(ArtifactKind::Persona),
        artifact_kind_name(ArtifactKind::Agent) == "agent"@,
        artifact_kind_named("agent"@) == Some(ArtifactKind::Agent),
        artifact_kind_name(ArtifactKind::Workflow) == "workflow"@,
        artifact_kind_named("workflow"@) == Some(ArtifactKind::Workflow),
        artifact_kind_name(ArtifactKind::Harness) == "harness"@,
        artifact_kind_named("harness"@) == Some(ArtifactKind::Harness),
        artifact_kind_name(ArtifactKind::HarnessSet) == "harness_set"@,
        artifact_kind_named("harness_set"@) == Some(ArtifactKind::HarnessSet),
        artifact_kind_name(ArtifactKind::Channel) == "channel"@,
        artifact_kind_named("channel"@) == Some(ArtifactKind::Channel),
        artifact_kind_name(ArtifactKind::Avatar) == "avatar"@,
        artifact_kind_named("avatar"@) == Some(ArtifactKind::Avatar),
{
    law_artifact_kind_round_trip(ArtifactKind::ToolSet);
    law_artifact_kind_round_trip(ArtifactKind::Skill);
    law_artifact_kind_round_trip(ArtifactKind::Persona);
    law_artifact_kind_round_trip(ArtifactKind::Agent);
    law_artifact_kind_round_trip(ArtifactKind::Workflow);
    law_artifact_kind_round_trip(ArtifactKind::Harness);
    law_artifact_kind_round_trip(ArtifactKind::HarnessSet);
    law_artifact_kind_round_trip(ArtifactKind::Channel);
    law_artifact_kind_round_trip(ArtifactKind::Avatar);
}

/// Reading the name of a artifact kind gives it back.
pub proof fn law_artifact_kind_round_trip(k: ArtifactKind)
    ensures
        artifact_kind_named(artifact_kind_name(k)) == Some(k),
{
    reveal_strlit("tool_set");
    reveal_strlit("skill");
    reveal_strlit("persona");
    reveal_strlit("agent");
    reveal_strlit("workflow");
    reveal_strlit("harness");
    reveal_strlit("harness_set");
    reveal_strlit("channel");
    reveal_strlit("avatar");
    assert("skill"@.len() != "tool_set"@.len());
    assert("persona"@.len() != "tool_set"@.len());
    assert("persona"@.len() != "skill"@.len());
    assert("agent"@.len() != "tool_set"@.len());
    assert("agent"@[0] != "skill"@[0]);
    assert("agent"@.len() != "persona"@.len());
    assert("workflow"@[0] != "tool_set"@[0]);
    assert("workflow"@.len() != "skill"@.len());
    assert("workflow"@.len() != "persona"@.len());
    assert("workflow"@.len() != "agent"@.len());
    assert("harness"@.len() != "tool_set"@.len());
    assert("harness"@.len() != "skill"@.len());
    assert("harness"@[0] != "persona"@[0]);
    assert("harness"@.len() != "agent"@.len());
    assert("harness"@.len() != "workflow"@.len());
    assert("harness_set"@.len() != "tool_set"@.len());
    assert("harness_set"@.len() != "skill"@.len());
    assert("harness_set"@.len() != "persona"@.len());
    assert("harness_set"@.len() != "agent"@.len());
    assert("harness_set"@.len() != "workflow"@.len());
    assert("harness_set"@.len() != "harness"@.len());
    assert("channel"@.len() != "tool_set"@.len());
    assert("channel"@.len() != "skill"@.len());
    assert("channel"@[0] != "persona"@[0]);
    assert("channel"@.len() != "agent"@.len());
    assert("channel"@.len() != "workflow"@.len());
    assert("channel"@[0] != "harness"@[0]);
    assert("channel"@.len() != "harness_set"@.len());
    assert("avatar"@.len() != "tool_set"@.len());
    assert("avatar"@.len() != "skill"@.len());
    assert("avatar"@.len() != "persona"@.len());
    assert("avatar"@.len() != "agent"@.len());
    assert("avatar"@.len() != "workflow"@.len());
    assert("avatar"@.len() != "harness"@.len());
    assert("avatar"@.len() != "harness_set"@.len());
    assert("avatar"@.len() != "channel"@.len());
}

/// A Jungian archetype.
#[derive(Debug, Clone, Copy, PartialEq, Eq, Structural)]
pub enum Archetype {
    Sage,
    Caregiver,
    Explorer,
    Hero,
    Magician,
    Outlaw,
    Lover,
    Jester,
    Everyman,
    Innocent,
    Ruler,
    Creator,
}

/// The name of each archetype.
pub open spec fn archetype_name(k: Archetype) -> Seq<char> {
    match k {
        Archetype::Sage => "Sage"@,
        Archetype::Caregiver => "Caregiver"@,
        Archetype::Explorer => "Explorer"@,
        Archetype::Hero => "Hero"@,
        Archetype::Magician => "Magician"@,
        Archetype::Outlaw => "Outlaw"@,
        Archetype::Lover => "Lover"@,
        Archetype::Jester => "Jester"@,
        Archetype::Everyman => "Everyman"@,
        Archetype::Innocent => "Innocent"@,
        Archetype::Ruler => "Ruler"@,
        Archetype::Creator => "Creator"@,
    }
}

/// The archetype that a name stands for, if any.
pub open spec fn archetype_named(s: Seq<char>) -> Option<Archetype> {
    if s == "Sage"@ {
        Some(Archetype::Sage)
    } else if s == "Caregiver"@ {
        Some(Archetype::Caregiver)
    } else if s == "Explorer"@ {
        Some(Archetype::Explorer)
    } else if s == "Hero"@ {
        Some(Archetype::Hero)
    } else if s == "Magician"@ {
        Some(Archetype::Magician)
    } else if s == "Outlaw"@ {
        Some(Archetype::Outlaw)
    } else if s == "Lover"@ {
        Some(Archetype::Lover)
    } else if s == "Jester"@ {
        Some(Archetype::Jester)
    } else if s == "Everyman"@ {
        Some(Archetype::Everyman)
    } else if s == "Innocent"@ {
        Some(Archetype::Innocent)
    } else if s == "Ruler"@ {
        Some(Archetype::Ruler)
    } else if s == "Creator"@ {
        Some(Archetype::Creator)
    } else {
        None
    }
}

pub fn archetype_to_str(k: Archetype) -> (r: &'static str)
    ensures
        r@ == archetype_name(k),
{
    match k {
        Archetype::Sage => "Sage",
        Archetype::Caregiver => "Caregiver",
        Archetype::Explorer => "Explorer",
        Archetype::Hero => "Hero",
        Archetype::Magician => "Magician",
        Archetype::Outlaw => "Outlaw",
        Archetype::Lover => "Lover",
        Archetype::Jester => "Jester",
        Archetype::Everyman => "Everyman",
        Archetype::Innocent => "Innocent",
        Archetype::Ruler => "Ruler",
        Archetype::Creator => "Creator",
    }
}

pub fn archetype_from_str(s: &str) -> (r: Option<Archetype>)
    ensures
        r == archetype_named(s@),
{
    if str_eq(s, "Sage") {
        Some(Archetype::Sage)
    } else if str_eq(s, "Caregiver") {
        Some(Archetype::Caregiver)
    } else if str_eq(s, "Explorer") {
        Some(Archetype::Explorer)
    } else if str_eq(s, "Hero") {
        Some(Archetype::Hero)
    } else if str_eq(s, "Magician") {
        Some(Archetype::Magician)
    } else if str_eq(s, "Outlaw") {
        Some(Archetype::Outlaw)
    } else if str_eq(s, "Lover") {
        Some(Archetype::Lover)
    } else if str_eq(s, "Jester") {
        Some(Archetype::Jester)
    } else if str_eq(s, "Everyman") {
        Some(Archetype::Everyman)
    } else if str_eq(s, "Innocent") {
        Some(Archetype::Innocent)
    } else if str_eq(s, "Ruler") {
        Some(Archetype::Ruler)
    } else if str_eq(s, "Creator") {
        Some(Archetype::Creator)
    } else {
        None
    }
}

/// The fixed name of each archetype, and each name read back as
/// its own archetype.
pub proof fn law_archetype_names()
    ensures
        archetype_name(Archetype::Sage) == "Sage"@,
        archetype_named("Sage"@) == Some(Archetype::Sage),
        archetype_name(Archetype::Caregiver) == "Caregiver"@,
        archetype_named("Caregiver"@) == Some(Archetype::Caregiver),
        archetype_name(Archetype::Explorer) == "Explorer"@,
        archetype_named("Explorer"@) == Some(Archetype::Explorer),
        archetype_name(Archetype::Hero) == "Hero"@,
        archetype_named("Hero"@) == Some(Archetype::Hero),
        archetype_name(Archetype::Magician) == "Magician"@,
        archetype_named("Magician"@) == Some(Archetype::Magician),
        archetype_name(Archetype::Outlaw) == "Outlaw"@,
        archetype_named("Outlaw"@) == Some(Archetype::Outlaw),
        archetype_name(Archetype::Lover) == "Lover"@,
        archetype_named("Lover"@) == Some(Archetype::Lover),
        archetype_name(Archetype::Jester) == "Jester"@,
        archetype_named("Jester"@) == Some(Archetype::Jester),
        archetype_name(Archetype::Everyman) == "Everyman"@,
        archetype_named("Everyman"@) == Some(Archetype::Everyman),
        archetype_name(Archetype::Innocent) == "Innocent"@,
        archetype_named("Innocent"@) == Some(Archetype::Innocent),
        archetype_name(Archetype::Ruler) == "Ruler"@,
        archetype_named("Ruler"@) == Some(Archetype::Ruler),
        archetype_name(Archetype::Creator) == "Creator"@,
        archetype_named("Creator"@) == Some(Archetype::Creator),
{
    law_archetype_round_trip(Archetype::Sage);
    law_archetype_round_trip(Archetype::Caregiver);
    law_archetype_round_trip(Archetype::Explorer);
    law_archetype_round_trip(Archetype::Hero);
    law_archetype_round_trip(Archetype::Magician);
    law_archetype_round_trip(Archetype::Outlaw);
    law_archetype_round_trip(Archetype::Lover);
    law_archetype_round_trip(Archetype::Jester);
    law_archetype_round_trip(Archetype::Everyman);
    law_archetype_round_trip(Archetype::Innocent);
    law_archetype_round_trip(Archetype::Ruler);
    law_archetype_round_trip(Archetype::Creator);
}

/// Reading the name of a archetype gives it back.
pub proof fn law_archetype_round_trip(k: Archetype)
    ensures
        archetype_named(archetype_name(k)) == Some(k),
{
    reveal_strlit("Sage");
    reveal_strlit("Caregiver");
    reveal_strlit("Explorer");
    reveal_strlit("Hero");
    reveal_strlit("Magician");
    reveal_strlit("Outlaw");
    reveal_strlit("Lover");
    reveal_strlit("Jester");
    reveal_strlit("Everyman");
    reveal_strlit("Innocent");
    reveal_strlit("Ruler");
    reveal_strlit("Creator");
    assert("Caregiver"@.len() != "Sage"@.len());
    assert("Explorer"@.len() != "Sage"@.len());
    assert("Explorer"@.len() != "Caregiver"@.len());
    assert("Hero"@[0] != "Sage"@[0]);
    assert("Hero"@.len() != "Caregiver"@.len());
    assert("Hero"@.len() != "Explorer"@.len());
    assert("Magician"@.len() != "Sage"@.len());
    assert("Magician"@.len() != "Caregiver"@.len());
    assert("Magician"@[0] != "Explorer"@[0]);
    assert("Magician"@.len() != "Hero"@.len());
    assert("Outlaw"@.len() != "Sage"@.len());
    assert("Outlaw"@.len() != "Caregiver"@.len());
    assert("Outlaw"@.len() != "Explorer"@.len());
    assert("Outlaw"@.len() != "Hero"@.len());
    assert("Outlaw"@.len() != "Magician"@.len());
    assert("Lover"@.len() != "Sage"@.len());
    assert("Lover"@.len() != "Caregiver"@.len());
    assert("Lover"@.len() != "Explorer"@.len());
    assert("Lover"@.len() != "Hero"@.len());
    assert("Lover"@.len() != "Magician"@.len());
    assert("Lover"@.len() != "Outlaw"@.len());
    assert("Jester"@.len() != "Sage"@.len());
    assert("Jester"@.len() != "Caregiver"@.len());
    assert("Jester"@.len() != "Explorer"@.len());
    assert("Jester"@.len() != "Hero"@.len());
    assert("Jester"@.len() != "Magician"@.len());
    assert("Jester"@[0] != "Outlaw"@[0]);
    assert("Jester"@.len() != "Lover"@.len());
    assert("Everyman"@.len() != "Sage"@.len());
    assert("Everyman"@.len() != "Caregiver"@.len());
    assert("Everyman"@[1] != "Explorer"@[1]);
    assert("Everyman"@.len() != "Hero"@.len());
    assert("Everyman"@[0] != "Magician"@[0]);
    assert("Everyman"@.len() != "Outlaw"@.len());
    assert("Everyman"@.len() != "Lover"@.len());
    assert("Everyman"@.len() != "Jester"@.len());
    assert("Innocent"@.len() != "Sage"@.len());
    assert("Innocent"@.len() != "Caregiver"@.len());
    assert("Innocent"@[0] != "Explorer"@[0]);
    assert("Innocent"@.len() != "Hero"@.len());
    assert("Innocent"@[0] != "Magician"@[0]);
    assert("Innocent"@.len() != "Outlaw"@.len());
    assert("Innocent"@.len() != "Lover"@.len());
    assert("Innocent"@.len() != "Jester"@.len());
    assert("Innocent"@[0] != "Everyman"@[0]);
    assert("Ruler"@.len() != "Sage"@.len());
    assert("Ruler"@.len() != "Caregiver"@.len());
    assert("Ruler"@.len() != "Explorer"@.len());
    assert("Ruler"@.len() != "Hero"@.len());
    assert("Ruler"@.len() != "Magician"@.len());
    assert("Ruler"@.len() != "Outlaw"@.len());
    assert("Ruler"@[0] != "Lover"@[0]);
    assert("Ruler"@.len() != "Jester"@.len());
    assert("Ruler"@.len() != "Everyman"@.len());
    assert("Ruler"@.len() != "Innocent"@.len());
    assert("Creator"@.len() != "Sage"@.len());
    assert("Creator"@.len() != "Caregiver"@.len());
    assert("Creator"@.len() != "Explorer"@.len());
    assert("Creator"@.len() != "Hero"@.len());
    assert("Creator"@.len() != "Magician"@.len());
    assert("Creator"@.len() != "Outlaw"@.len());
    assert("Creator"@.len() != "Lover"@.len());
    assert("Creator"@.len() != "Jester"@.len());
    assert("Creator"@.len() != "Everyman"@.len());
    assert("Creator"@.len() != "Innocent"@.len());
    assert("Creator"@.len() != "Ruler"@.len());
}

/// A Jungian cognitive function: a perceiving or judging function, turned inward or outward.
#[derive(Debug, Clone, Copy, PartialEq, Eq, Structural)]
pub enum CognitiveFunction {
    Ni,
    Ne,
    Si,
    Se,
    Ti,
    Te,
    Fi,
    Fe,
}

/// The name of each cognitive function.
pub open spec fn cognitive_function_name(k: CognitiveFunction) -> Seq<char> {
    match k {
        CognitiveFunction::Ni => "Ni"@,
        CognitiveFunction::Ne => "Ne"@,
        CognitiveFunction::Si => "Si"@,
        CognitiveFunction::Se => "Se"@,
        CognitiveFunction::Ti => "Ti"@,
        CognitiveFunction::Te => "Te"@,
        CognitiveFunction::Fi => "Fi"@,
        CognitiveFunction::Fe => "Fe"@,
    }
}

/// The cognitive function that a name stands for, if any.
pub open spec fn cognitive_function_named(s: Seq<char>) -> Option<CognitiveFunction> {
    if s == "Ni"@ {
        Some(CognitiveFunction::Ni)
    } else if s == "Ne"@ {
        Some(CognitiveFunction::Ne)
    } else if s == "Si"@ {
        Some(CognitiveFunction::Si)
    } else if s == "Se"@ {
        Some(CognitiveFunction::Se)
    } else if s == "Ti"@ {
        Some(CognitiveFunction::Ti)
    } else if s == "Te"@ {
        Some(CognitiveFunction::Te)
    } else if s == "Fi"@ {
        Some(CognitiveFunction::Fi)
    } else if s == "Fe"@ {
        Some(CognitiveFunction::Fe)
    } else {
        None
    }
}

pub fn cognitive_function_to_str(k: CognitiveFunction) -> (r: &'static str)
    ensures
        r@ == cognitive_function_name(k),
{
    match k {
        CognitiveFunction::Ni => "Ni",
        CognitiveFunction::Ne => "Ne",
        CognitiveFunction::Si => "Si",
        CognitiveFunction::Se => "Se",
        CognitiveFunction::Ti => "Ti",
        CognitiveFunction::Te => "Te",
        CognitiveFunction::Fi => "Fi",
        CognitiveFunction::Fe => "Fe",
    }
}

pub fn cognitive_function_from_str(s: &str) -> (r: Option<CognitiveFunction>)
    ensures
        r == cognitive_function_named(s@),
{
    if str_eq(s, "Ni") {
        Some(CognitiveFunction::Ni)
    } else if str_eq(s, "Ne") {
        Some(CognitiveFunction::Ne)
    } else if str_eq(s, "Si") {
        Some(CognitiveFunction::Si)
    } else if str_eq(s, "Se") {
        Some(CognitiveFunction::Se)
    } else if str_eq(s, "Ti") {
        Some(CognitiveFunction::Ti)
    } else if str_eq(s, "Te") {
        Some(CognitiveFunction::Te)
    } else if str_eq(s, "Fi") {
        Some(CognitiveFunction::Fi)
    } else if str_eq(s, "Fe") {
        Some(CognitiveFunction::Fe)
    } else {
        None
    }
}

/// The fixed name of each cognitive function, and each name read back as
/// its own cognitive function.
pub proof fn law_cognitive_function_names()
    ensures
        cognitive_function_name(CognitiveFunction::Ni) == "Ni"@,
        cognitive_function_named("Ni"@) == Some(CognitiveFunction::Ni),
        cognitive_function_name(CognitiveFunction::Ne) == "Ne"@,
        cognitive_function_named("Ne"@) == Some(CognitiveFunction::Ne),
        cognitive_function_name(CognitiveFunction::Si) == "Si"@,
        cognitive_function_named("Si"@) == Some(CognitiveFunction::Si),
        cognitive_function_name(CognitiveFunction::Se) == "Se"@,
        cognitive_function_named("Se"@) == Some(CognitiveFunction::Se),
        cognitive_function_name(CognitiveFunction::Ti) == "Ti"@,
        cognitive_function_named("Ti"@) == Some(CognitiveFunction::Ti),
        cognitive_function_name(CognitiveFunction::Te) == "Te"@,
        cognitive_function_named("Te"@) == Some(CognitiveFunction::Te),
        cognitive_function_name(CognitiveFunction::Fi) == "Fi"@,
        cognitive_function_named("Fi"@) == Some(CognitiveFunction::Fi),
        cognitive_function_name(CognitiveFunction::Fe) == "Fe"@,
        cognitive_function_named("Fe"@) == Some(CognitiveFunction::Fe),
{
    law_cognitive_function_round_trip(CognitiveFunction::Ni);
    law_cognitive_function_round_trip(CognitiveFunction::Ne);
    law_cognitive_function_round_trip(CognitiveFunction::Si);
    law_cognitive_function_round_trip(CognitiveFunction::Se);
    law_cognitive_function_round_trip(CognitiveFunction::Ti);
    law_cognitive_function_round_trip(CognitiveFunction::Te);
    law_cognitive_function_round_trip(CognitiveFunction::Fi);
    law_cognitive_function_round_trip(CognitiveFunction::Fe);
}

/// Reading the name of a cognitive function gives it back.
pub proof fn law_cognitive_function_round_trip(k: CognitiveFunction)
    ensures
        cognitive_function_named(cognitive_function_name(k)) == Some(k),
{
    reveal_strlit("Ni");
    reveal_strlit("Ne");
    reveal_strlit("Si");
    reveal_strlit("Se");
    reveal_strlit("Ti");
    reveal_strlit("Te");
    reveal_strlit("Fi");
    reveal_strlit("Fe");
    assert("Ne"@[1] != "Ni"@[1]);
    assert("Si"@[0] != "Ni"@[0]);
    assert("Si"@[0] != "Ne"@[0]);
    assert("Se"@[0] != "Ni"@[0]);
    assert("Se"@[0] != "Ne"@[0]);
    assert("Se"@[1] != "Si"@[1]);
    assert("Ti"@[0] != "Ni"@[0]);
    assert("Ti"@[0] != "Ne"@[0]);
    assert("Ti"@[0] != "Si"@[0]);
    assert("Ti"@[0] != "Se"@[0]);
    assert("Te"@[0] != "Ni"@[0]);
    assert("Te"@[0] != "Ne"@[0]);
    assert("Te"@[0] != "Si"@[0]);
    assert("Te"@[0] != "Se"@[0]);
    assert("Te"@[1] != "Ti"@[1]);
    assert("Fi"@[0] != "Ni"@[0]);
    assert("Fi"@[0] != "Ne"@[0]);
    assert("Fi"@[0] != "Si"@[0]);
    assert("Fi"@[0] != "Se"@[0]);
    assert("Fi"@[0] != "Ti"@[0]);
    assert("Fi"@[0] != "Te"@[0]);
    assert("Fe"@[0] != "Ni"@[0]);
    assert("Fe"@[0] != "Ne"@[0]);
    assert("Fe"@[0] != "Si"@[0]);
    assert("Fe"@[0] != "Se"@[0]);
    assert("Fe"@[0] != "Ti"@[0]);
    assert("Fe"@[0] != "Te"@[0]);
    assert("Fe"@[1] != "Fi"@[1]);
}

/// The encoding of an audio buffer.
#[derive(Debug, Clone, Copy, PartialEq, Eq, Structural)]
pub enum AudioFormat {
    Wav,
    Mp3,
    Flac,
    Ogg,
    Opus,
    Webm,
    Mp4,
    Aac,
}

/// The name of each audio format.
pub open spec fn audio_format_name(k: AudioFormat) -> Seq<char> {
    match k {
        AudioFormat::Wav => "wav"@,
        AudioFormat::Mp3 => "mp3"@,
        AudioFormat::Flac => "flac"@,
        AudioFormat::Ogg => "ogg"@,
        AudioFormat::Opus => "opus"@,
        AudioFormat::Webm => "webm"@,
        AudioFormat::Mp4 => "mp4"@,
        AudioFormat::Aac => "aac"@,
    }
}

/// The audio format that a name stands for, if any.
pub open spec fn audio_format_named(s: Seq<char>) -> Option<AudioFormat> {
    if s == "wav"@ {
        Some(AudioFormat::Wav)
    } else if s == "mp3"@ {
        Some(AudioFormat::Mp3)
    } else if s == "flac"@ {
        Some(AudioFormat::Flac)
    } else if s == "ogg"@ {
        Some(AudioFormat::Ogg)
    } else if s == "opus"@ {
        Some(AudioFormat::Opus)
    } else if s == "webm"@ {
        Some(AudioFormat::Webm)
    } else if s == "mp4"@ {
        Some(AudioFormat::Mp4)
    } else if s == "aac"@ {
        Some(AudioFormat::Aac)
    } else if s == "m4a"@ {
        Some(AudioFormat::Mp4)
    } else {
        None
    }
}

pub fn audio_format_to_str(k: AudioFormat) -> (r: &'static str)
    ensures
        r@ == audio_format_name(k),
{
    match k {
        AudioFormat::Wav => "wav",
        AudioFormat::Mp3 => "mp3",
        AudioFormat::Flac => "flac",
        AudioFormat::Ogg => "ogg",
        AudioFormat::Opus => "opus",
        AudioFormat::Webm => "webm",
        AudioFormat::Mp4 => "mp4",
        AudioFormat::Aac => "aac",
    }
}

pub fn audio_format_from_str(s: &str) -> (r: Option<AudioFormat>)
    ensures
        r == audio_format_named(s@),
{
    if str_eq(s, "wav") {
        Some(AudioFormat::Wav)
    } else if str_eq(s, "mp3") {
        Some(AudioFormat::Mp3)
    } else if str_eq(s, "flac") {
        Some(AudioFormat::Flac)
    } else if str_eq(s, "ogg") {
        Some(AudioFormat::Ogg)
    } else if str_eq(s, "opus") {
        Some(AudioFormat::Opus)
    } else if str_eq(s, "webm") {
        Some(AudioFormat::Webm)
    } else if str_eq(s, "mp4") {
        Some(AudioFormat::Mp4)
    } else if str_eq(s, "aac") {
        Some(AudioFormat::Aac)
    } else if str_eq(s, "m4a") {
        Some(AudioFormat::Mp4)
    } else {
        None
    }
}

/// The fixed name of each audio format, and each name read back as
/// its own audio format.
pub proof fn law_audio_format_names()
    ensures
        audio_format_name(AudioFormat::Wav) == "wav"@,
        audio_format_named("wav"@) == Some(AudioFormat::Wav),
        audio_format_name(AudioFormat::Mp3) == "mp3"@,
        audio_format_named("mp3"@) == Some(AudioFormat::Mp3),
        audio_format_name(AudioFormat::Flac) == "flac"@,
        audio_format_named("flac"@) == Some(AudioFormat::Flac),
        audio_format_name(AudioFormat::Ogg) == "ogg"@,
        audio_format_named("ogg"@) == Some(AudioFormat::Ogg),
        audio_format_name(AudioFormat::Opus) == "opus"@,
        audio_format_named("opus"@) == Some(AudioFormat::Opus),
        audio_format_name(AudioFormat::Webm) == "webm"@,
        audio_format_named("webm"@) == Some(AudioFormat::Webm),
        audio_format_name(AudioFormat::Mp4) == "mp4"@,
        audio_format_named("mp4"@) == Some(AudioFormat::Mp4),
        audio_format_name(AudioFormat::Aac) == "aac"@,
        audio_format_named("aac"@) == Some(AudioFormat::Aac),
{
    law_audio_format_round_trip(AudioFormat::Wav);
    law_audio_format_round_trip(AudioFormat::Mp3);
    law_audio_format_round_trip(AudioFormat::Flac);
    law_audio_format_round_trip(AudioFormat::Ogg);
    law_audio_format_round_trip(AudioFormat::Opus);
    law_audio_format_round_trip(AudioFormat::Webm);
    law_audio_format_round_trip(AudioFormat::Mp4);
    law_audio_format_round_trip(AudioFormat::Aac);
}

/// Reading the name of a audio format gives it back.
pub proof fn law_audio_format_round_trip(k: AudioFormat)
    ensures
        audio_format_named(audio_format_name(k)) == Some(k),
{
    reveal_strlit("wav");
    reveal_strlit("mp3");
    reveal_strlit("flac");
    reveal_strlit("ogg");
    reveal_strlit("opus");
    reveal_strlit("webm");
    reveal_strlit("mp4");
    reveal_strlit("aac");
    reveal_strlit("m4a");
    assert("mp3"@[0] != "wav"@[0]);
    assert("flac"@.len() != "wav"@.len());
    assert("flac"@.len() != "mp3"@.len());
    assert("ogg"@[0] != "wav"@[0]);
    assert("ogg"@[0] != "mp3"@[0]);
    assert("ogg"@.len() != "flac"@.len());
    assert("opus"@.len() != "wav"@.len());
    assert("opus"@.len() != "mp3"@.len());
    assert("opus"@[0] != "flac"@[0]);
    assert("opus"@.len() != "ogg"@.len());
    assert("webm"@.len() != "wav"@.len());
    assert("webm"@.len() != "mp3"@.len());
    assert("webm"@[0] != "flac"@[0]);
    assert("webm"@.len() != "ogg"@.len());
    assert("webm"@[0] != "opus"@[0]);
    assert("mp4"@[0] != "wav"@[0]);
    assert("mp4"@[2] != "mp3"@[2]);
    assert("mp4"@.len() != "flac"@.len());
    assert("mp4"@[0] != "ogg"@[0]);
    assert("mp4"@.len() != "opus"@.len());
    assert("mp4"@.len() != "webm"@.len());
    assert("aac"@[0] != "wav"@[0]);
    assert("aac"@[0] != "mp3"@[0]);
    assert("aac"@.len() != "flac"@.len());
    assert("aac"@[0] != "ogg"@[0]);
    assert("aac"@.len() != "opus"@.len());
    assert("aac"@.len() != "webm"@.len());
    assert("aac"@[0] != "mp4"@[0]);
}

/// When a hook runs relative to its event.
#[derive(Debug, Clone, Copy, PartialEq, Eq, Structural)]
pub enum HookWhen {
    Pre,
    Post,
    Both,
}

/// The name of each hook when.
pub open spec fn hook_when_name(k: HookWhen) -> Seq<char> {
    match k {
        HookWhen::Pre => "pre"@,
        HookWhen::Post => "post"@,
        HookWhen::Both => "both"@,
    }
}

/// The hook when that a name stands for, if any.
pub open spec fn hook_when_named(s: Seq<char>) -> Option<HookWhen> {
    if s == "pre"@ {
        Some(HookWhen::Pre)
    } else if s == "post"@ {
        Some(HookWhen::Post)
    } else if s == "both"@ {
        Some(HookWhen::Both)
    } else {
        None
    }
}

pub fn hook_when_to_str(k: HookWhen) -> (r: &'static str)
    ensures
        r@ == hook_when_name(k),
{
    match k {
        HookWhen::Pre => "pre",
        HookWhen::Post => "post",
        HookWhen::Both => "both",
    }
}

pub fn hook_when_from_str(s: &str) -> (r: Option<HookWhen>)
    ensures
        r == hook_when_named(s@),
{
    if str_eq(s, "pre") {
        Some(HookWhen::Pre)
    } else if str_eq(s, "post") {
        Some(HookWhen::Post)
    } else if str_eq(s, "both") {
        Some(HookWhen::Both)
    } else {
        None
    }
}

/// The fixed name of each hook when, and each name read back as
/// its own hook when.
pub proof fn law_hook_when_names()
    ensures
        hook_when_name(HookWhen::Pre) == "pre"@,
        hook_when_named("pre"@) == Some(HookWhen::Pre),
        hook_when_name(HookWhen::Post) == "post"@,
        hook_when_named("post"@) == Some(HookWhen::Post),
        hook_when_name(HookWhen::Both) == "both"@,
        hook_when_named("both"@) == Some(HookWhen::Both),
{
    law_hook_when_round_trip(HookWhen::Pre);
    law_hook_when_round_trip(HookWhen::Post);
    law_hook_when_round_trip(HookWhen::Both);
}

/// Reading the name of a hook when gives it back.
pub proof fn law_hook_when_round_trip(k: HookWhen)
    ensures
        hook_when_named(hook_when_name(k)) == Some(k),
{
    reveal_strlit("pre");
    reveal_strlit("post");
    reveal_strlit("both");
    assert("post"@.len() != "pre"@.len());
    assert("both"@.len() != "pre"@.len());
    assert("both"@[0] != "post"@[0]);
}

/// The author of a chat message.
#[derive(Debug, Clone, Copy, PartialEq, Eq, Structural)]
pub enum MessageRole {
    System,
    User,
    Assistant,
    Tool,
}

/// The name of each message role.
pub open spec fn message_role_name(k: MessageRole) -> Seq<char> {
    match k {
        MessageRole::System => "system"@,
        MessageRole::User => "user"@,
        MessageRole::Assistant => "assistant"@,
        MessageRole::Tool => "tool"@,
    }
}

/// The message role that a name stands for, if any.
pub open spec fn message_role_named(s: Seq<char>) -> Option<MessageRole> {
    if s == "system"@ {
        Some(MessageRole::System)
    } else if s == "user"@ {
        Some(MessageRole::User)
    } else if s == "assistant"@ {
        Some(MessageRole::Assistant)
    } else if s == "tool"@ {
        Some(MessageRole::Tool)
    } else {
        None
    }
}

pub fn message_role_to_str(k: MessageRole) -> (r: &'static str)
    ensures
        r@ == message_role_name(k),
{
    match k {
        MessageRole::System => "system",
        MessageRole::User => "user",
        MessageRole::Assistant => "assistant",
        MessageRole::Tool => "tool",
    }
}

pub fn message_role_from_str(s: &str) -> (r: Option<MessageRole>)
    ensures
        r == message_role_named(s@),
{
    if str_eq(s, "system") {
        Some(MessageRole::System)
    } else if str_eq(s, "user") {
        Some(MessageRole::User)
    } else if str_eq(s, "assistant") {
        Some(MessageRole::Assistant)
    } else if str_eq(s, "tool") {
        Some(MessageRole::Tool)
    } else {
        None
    }
}

/// The fixed name of each message role, and each name read back as
/// its own message role.
pub proof fn law_message_role_names()
    ensures
        message_role_name(MessageRole::System) == "system"@,
        message_role_named("system"@) == Some(MessageRole::System),
        message_role_name(MessageRole::User) == "user"@,
        message_role_named("user"@) == Some(MessageRole::User),
        message_role_name(MessageRole::Assistant) == "assistant"@,
        message_role_named("assistant"@) == Some(MessageRole::Assistant),
        message_role_name(MessageRole::Tool) == "tool"@,
        message_role_named("tool"@) == Some(MessageRole::Tool),
{
    law_message_role_round_trip(MessageRole::System);
    law_message_role_round_trip(MessageRole::User);
    law_message_role_round_trip(MessageRole::Assistant);
    law_message_role_round_trip(MessageRole::Tool);
}

/// Reading the name of a message role gives it back.
pub proof fn law_message_role_round_trip(k: MessageRole)
    ensures
        message_role_named(message_role_name(k)) == Some(k),
{
    reveal_strlit("system");
    reveal_strlit("user");
    reveal_strlit("assistant");
    reveal_strlit("tool");
    assert("user"@.len() != "system"@.len());
    assert("assistant"@.len() != "system"@.len());
    assert("assistant"@.len() != "user"@.len());
    assert("tool"@.len() != "system"@.len());
    assert("tool"@[0] != "user"@[0]);
    assert("tool"@.len() != "assistant"@.len());
}

/// An artifact kind handed to Python.
#[derive(Debug)]
pub struct PyArtifactKind {
    pub inner: ArtifactKind,
}

impl PyArtifactKind {
    pub fn new(name: &str) -> (r: Result<Self, UnknownName>)
        ensures
            match r {
                Ok(k) => artifact_kind_named(name@) == Some(k.inner),
                Err(e) => artifact_kind_named(name@) is None && e.name@ == name@,
            },
    {
        match artifact_kind_from_str(name) {
            Some(k) => Ok(PyArtifactKind { inner: k }),
            None => Err(UnknownName { name: String::from_str(name) }),
        }
    }

    pub fn name(&self) -> (r: &'static str)
        ensures
            r@ == artifact_kind_name(self.inner),
    {
        artifact_kind_to_str(self.inner)
    }
}

/// An archetype handed to Python.
#[derive(Debug)]
pub struct PyArchetype {
    pub inner: Archetype,
}

impl PyArchetype {
    pub fn new(name: &str) -> (r: Result<Self, UnknownName>)
        ensures
            match r {
                Ok(k) => archetype_named(name@) == Some(k.inner),
                Err(e) => archetype_named(name@) is None && e.name@ == name@,
            },
    {
        match archetype_from_str(name) {
            Some(k) => Ok(PyArchetype { inner: k }),
            None => Err(UnknownName { name: String::from_str(name) }),
        }
    }

    pub fn name(&self) -> (r: &'static str)
        ensures
            r@ == archetype_name(self.inner),
    {
        archetype_to_str(self.inner)
    }
}

/// A cognitive function handed to Python.
#[derive(Debug)]
pub struct PyCognitiveFunction {
    pub inner: CognitiveFunction,
}

impl PyCognitiveFunction {
    pub fn new(code: &str) -> (r: Result<Self, UnknownName>)
        ensures
            match r {
                Ok(k) => cognitive_function_named(code@) == Some(k.inner),
                Err(e) => cognitive_function_named(code@) is None && e.name@ == code@,
            },
    {
        match cognitive_function_from_str(code) {
            Some(k) => Ok(PyCognitiveFunction { inner: k }),
            None => Err(UnknownName { name: String::from_str(code) }),
        }
    }

    pub fn code(&self) -> (r: &'static str)
        ensures
            r@ == cognitive_function_name(self.inner),
    {
        cognitive_function_to_str(self.inner)
    }
}

/// The four preferences of one MBTI type.
#[derive(Debug, Clone, Copy, PartialEq, Eq, Structural)]
pub struct MbtiType {
    /// `I` rather than `E`.
    pub introverted: bool,
    /// `N` rather than `S`.
    pub intuitive: bool,
    /// `T` rather than `F`.
    pub thinking: bool,
    /// `J` rather than `P`.
    pub judging: bool,
}

/// The four-letter code of an MBTI type.
pub open spec fn mbti_code(t: MbtiType) -> Seq<char> {
    seq![
        if t.introverted { 'I' } else { 'E' },
        if t.intuitive { 'N' } else { 'S' },
        if t.thinking { 'T' } else { 'F' },
        if t.judging { 'J' } else { 'P' },
    ]
}

/// The MBTI type of an upper-case four-letter code: `I`/`E`, `N`/`S`,
/// `T`/`F`, `J`/`P`.
pub open spec fn mbti_of_upper(s: Seq<char>) -> Option<MbtiType> {
    if s.len() == 4 && (s[0] == 'I' || s[0] == 'E') && (s[1] == 'N' || s[1] == 'S') && (s[2] == 'T'
        || s[2] == 'F') && (s[3] == 'J' || s[3] == 'P') {
        Some(
            MbtiType {
                introverted: s[0] == 'I',
                intuitive: s[1] == 'N',
                thinking: s[2] == 'T',
                judging: s[3] == 'J',
            },
        )
    } else {
        None
    }
}

/// The MBTI type a code stands for, whatever the case of its letters.
pub open spec fn mbti_named(s: Seq<char>) -> Option<MbtiType> {
    mbti_of_upper(uppered(s))
}

fn mbti_from_upper(s: &str) -> (r: Option<MbtiType>)
    ensures
        r == mbti_of_upper(s@),
{
    if s.unicode_len() != 4 {
        return None;
    }
    let a = s.get_char(0);
    let b = s.get_char(1);
    let c = s.get_char(2);
    let d = s.get_char(3);
    if (a == 'I' || a == 'E') && (b == 'N' || b == 'S') && (c == 'T' || c == 'F') && (d == 'J' || d == 'P') {
        Some(MbtiType { introverted: a == 'I', intuitive: b == 'N', thinking: c == 'T', judging: d == 'J' })
    } else {
        None
    }
}

/// An MBTI type handed to Python.
#[derive(Debug)]
pub struct PyMbtiType {
    pub inner: MbtiType,
}

impl PyMbtiType {
    /// Reads a four-letter code, in any case.
    pub fn new(code: &str) -> (r: Result<Self, UnknownName>)
        ensures
            match r {
                Ok(t) => mbti_named(code@) == Some(t.inner),
                Err(e) => mbti_named(code@) is None && e.name@ == uppered(code@),
            },
    {
        let up = to_ascii_upper(code);
        match mbti_from_upper(up.as_str()) {
            Some(t) => Ok(PyMbtiType { inner: t }),
            None => Err(UnknownName { name: up }),
        }
    }

    /// The upper-case four-letter code.
    pub fn code(&self) -> (r: String)
        ensures
            r@ == mbti_code(self.inner),
    {
        let t = self.inner;
        let mut s = String::from_str(if t.introverted { "I" } else { "E" });
        s.append(if t.intuitive { "N" } else { "S" });
        s.append(if t.thinking { "T" } else { "F" });
        s.append(if t.judging { "J" } else { "P" });
        proof {
            reveal_strlit("I");
            reveal_strlit("E");
            reveal_strlit("N");
            reveal_strlit("S");
            reveal_strlit("T");
            reveal_strlit("F");
            reveal_strlit("J");
            reveal_strlit("P");
            assert(s@ =~= mbti_code(t));
        }
        s
    }
}

/// Reading an MBTI type's code gives the type back.
pub proof fn law_mbti_round_trip(t: MbtiType)
    ensures
        mbti_named(mbti_code(t)) == Some(t),
{
    let c = mbti_code(t);
    assert(uppered(c) =~= c);
}

/// An MBTI code reads the same whatever the case of its letters.
pub proof fn law_mbti_case_insensitive(s: Seq<char>)
    ensures
        mbti_named(s) == mbti_named(uppered(s)),
        mbti_named(s) == mbti_named(lowered(s)),
{
    assert(uppered(uppered(s)) =~= uppered(s));
    lemma_case_maps_seq(s);
}

/// An audio format name reads the same whatever the case of its letters.
pub proof fn law_audio_format_case_insensitive(s: Seq<char>)
    ensures
        audio_format_named(lowered(s)) == audio_format_named(lowered(uppered(s))),
        audio_format_named(lowered(s)) == audio_format_named(lowered(lowered(s))),
{
    lemma_case_maps_seq(s);
    assert forall|i: int| 0 <= i < s.len() implies #[trigger] lowered(lowered(s))[i] == lowered(s)[i] by {
        crate::text::lemma_case_maps(s[i]);
        assert(lowered(lowered(s))[i] == crate::text::ascii_lower(crate::text::ascii_lower(s[i])));
    }
    assert(lowered(lowered(s)) =~= lowered(s));
}

/// Reads an audio format name, whatever the case of its letters.
pub fn parse_format(s: &str) -> (r: Result<AudioFormat, UnknownName>)
    ensures
        match r {
            Ok(f) => audio_format_named(lowered(s@)) == Some(f),
            Err(e) => audio_format_named(lowered(s@)) is None && e.name@ == lowered(s@),
        },
{
    let low = to_ascii_lower(s);
    match audio_format_from_str(low.as_str()) {
        Some(f) => Ok(f),
        None => Err(UnknownName { name: low }),
    }
}

/// Reads when a hook runs: `pre`, `post` or `both`.
pub fn parse_when(s: &str) -> (r: Result<HookWhen, UnknownName>)
    ensures
        match r {
            Ok(w) => hook_when_named(s@) == Some(w),
            Err(e) => hook_when_named(s@) is None && e.name@ == s@,
        },
{
    match hook_when_from_str(s) {
        Some(w) => Ok(w),
        None => Err(UnknownName { name: String::from_str(s) }),
    }
}

/// A chat message with its author.
#[derive(Debug)]
pub struct PyRenderedMessage {
    pub role: MessageRole,
    pub content: String,
}

impl PyRenderedMessage {
    /// A message; a role name other than `system`, `assistant` or `tool`
    /// makes it a user message.
    pub fn new(role: &str, content: String) -> (r: Self)
        ensures
            r.role == match message_role_named(role@) {
                Some(MessageRole::System) => MessageRole::System,
                Some(MessageRole::Assistant) => MessageRole::Assistant,
                Some(MessageRole::Tool) => MessageRole::Tool,
                _ => MessageRole::User,
            },
            r.content@ == content@,
    {
        let role = match message_role_from_str(role) {
            Some(MessageRole::System) => MessageRole::System,
            Some(MessageRole::Assistant) => MessageRole::Assistant,
            Some(MessageRole::Tool) => MessageRole::Tool,
            _ => MessageRole::User,
        };
        PyRenderedMessage { role, content }
    }

    pub fn role(&self) -> (r: &'static str)
        ensures
            r@ == message_role_name(self.role),
    {
        message_role_to_str(self.role)
    }
}

/// What a sandbox may run.
#[derive(Debug, Clone, Copy, PartialEq, Eq, Structural)]
pub enum PySandboxProfile {
    PythonOnly,
    NpmOnly,
    RustOnly,
    PythonAndNpm,
    FullStack,
}

pub open spec fn sandbox_profile_value(p: PySandboxProfile) -> Seq<char> {
    match p {
        PySandboxProfile::PythonOnly => "python_only"@,
        PySandboxProfile::NpmOnly => "npm_only"@,
        PySandboxProfile::RustOnly => "rust_only"@,
        PySandboxProfile::PythonAndNpm => "python_and_npm"@,
        PySandboxProfile::FullStack => "full_stack"@,
    }
}

impl PySandboxProfile {
    /// The profile's snake-case wire value.
    pub fn value(&self) -> (r: &'static str)
        ensures
            r@ == sandbox_profile_value(*self),
    {
        match self {
            PySandboxProfile::PythonOnly => "python_only",
            PySandboxProfile::NpmOnly => "npm_only",
            PySandboxProfile::RustOnly => "rust_only",
            PySandboxProfile::PythonAndNpm => "python_and_npm",
            PySandboxProfile::FullStack => "full_stack",
        }
    }
}

/// How a speech harness tells speakers apart.
#[derive(Debug, Clone, Copy, PartialEq, Eq, Structural)]
pub enum DiarizationChoice {
    Off,
    Backend,
    /// Layered over the deterministic two-speaker mock diarizer.
    LayeredMock,
}

/// How a speech harness takes turns.
#[derive(Debug, Clone, Copy, PartialEq, Eq, Structural)]
pub enum VoiceMode {
    Live,
    TurnBased { silence_ms: u32 },
}

/// The silence that ends a turn in turn-based mode.
pub const TURN_SILENCE_MS: u32 = 800;

pub open spec fn diarization_named(s: Seq<char>) -> Option<DiarizationChoice> {
    if s == "off"@ {
        Some(DiarizationChoice::Off)
    } else if s == "backend"@ {
        Some(DiarizationChoice::Backend)
    } else if s == "layered_mock"@ {
        Some(DiarizationChoice::LayeredMock)
    } else {
        None
    }
}

pub open spec fn voice_mode_named(s: Seq<char>) -> Option<VoiceMode> {
    if s == "live"@ {
        Some(VoiceMode::Live)
    } else if s == "turn_based"@ {
        Some(VoiceMode::TurnBased { silence_ms: TURN_SILENCE_MS })
    } else {
        None
    }
}

/// The label a diarization setting is shown with.
pub open spec fn diarization_label_spec(d: DiarizationChoice) -> Seq<char> {
    match d {
        DiarizationChoice::Off => "off"@,
        DiarizationChoice::Backend => "backend"@,
        DiarizationChoice::LayeredMock => "layered"@,
    }
}

pub fn diarization_label(d: DiarizationChoice) -> (r: &'static str)
    ensures
        r@ == diarization_label_spec(d),
{
    match d {
        DiarizationChoice::Off => "off",
        DiarizationChoice::Backend => "backend",
        DiarizationChoice::LayeredMock => "layered",
    }
}

pub fn voice_mode_label(m: VoiceMode) -> (r: &'static str)
    ensures
        r@ == match m {
            VoiceMode::Live => "live"@,
            VoiceMode::TurnBased { .. } => "turn_based"@,
        },
{
    match m {
        VoiceMode::Live => "live",
        VoiceMode::TurnBased { .. } => "turn_based",
    }
}

/// The settings of a speech harness.
#[derive(Debug)]
pub struct PySttHarnessSpec {
    pub id: String,
    pub version: SemVersion,
    pub diarization: DiarizationChoice,
    pub voice_mode: VoiceMode,
}

/// Why speech-harness settings are refused.
#[derive(Debug)]
pub enum SttSpecError {
    BadVersion { error: VersionError },
    UnknownDiarization { name: String },
    UnknownVoiceMode { name: String },
}

impl PySttHarnessSpec {
    /// Reads the settings, checking the version first, then the
    /// diarization policy (`off`, `backend`, `layered_mock`), then the voice
    /// mode (`live`, `turn_based`).
    pub fn new(id: String, version: &str, diarization: &str, voice_mode: &str) -> (r: Result<Self, SttSpecError>)
        ensures
            match r {
                Ok(s) => s.id@ == id@ && semver_parse(version@) == Some(s.version@) && diarization_named(
                    diarization@,
                ) == Some(s.diarization) && voice_mode_named(voice_mode@) == Some(s.voice_mode),
                Err(SttSpecError::BadVersion { .. }) => semver_parse(version@) is None,
                Err(SttSpecError::UnknownDiarization { name }) => semver_parse(version@) is Some
                    && diarization_named(diarization@) is None && name@ == diarization@,
                Err(SttSpecError::UnknownVoiceMode { name }) => semver_parse(version@) is Some
                    && diarization_named(diarization@) is Some && voice_mode_named(voice_mode@) is None
                    && name@ == voice_mode@,
            },
    {
        let v = match parse_version(version) {
            Ok(v) => v,
            Err(e) => return Err(SttSpecError::BadVersion { error: e }),
        };
        let d = if str_eq(diarization, "off") {
            DiarizationChoice::Off
        } else if str_eq(diarization, "backend") {
            DiarizationChoice::Backend
        } else if str_eq(diarization, "layered_mock") {
            DiarizationChoice::LayeredMock
        } else {
            return Err(SttSpecError::UnknownDiarization { name: String::from_str(diarization) });
        };
        let m = if str_eq(voice_mode, "live") {
            VoiceMode::Live
        } else if str_eq(voice_mode, "turn_based") {
            VoiceMode::TurnBased { silence_ms: TURN_SILENCE_MS }
        } else {
            return Err(SttSpecError::UnknownVoiceMode { name: String::from_str(voice_mode) });
        };
        Ok(PySttHarnessSpec { id, version: v, diarization: d, voice_mode: m })
    }
}

} // verus!

use atomr_agents_py_bindings::adapters::{InstanceChoice, PyToolAdapter};
use atomr_agents_py_bindings::ctx::CallCtxSettings;
use atomr_agents_py_bindings::names::{
    archetype_from_str, archetype_to_str, artifact_kind_from_str, artifact_kind_to_str,
    audio_format_from_str, audio_format_to_str, cognitive_function_from_str,
    cognitive_function_to_str, hook_when_from_str, hook_when_to_str, message_role_from_str,
    message_role_to_str, parse_format, Archetype, ArtifactKind, AudioFormat, CognitiveFunction,
    HookWhen, MessageRole, PyMbtiType,
};

#[test]
fn artifact_kind_names_round_trip() {
    for k in [
        ArtifactKind::ToolSet,
        ArtifactKind::Skill,
        ArtifactKind::Persona,
        ArtifactKind::Agent,
        ArtifactKind::Workflow,
        ArtifactKind::Harness,
        ArtifactKind::HarnessSet,
        ArtifactKind::Channel,
        ArtifactKind::Avatar,
    ] {
        assert_eq!(artifact_kind_from_str(artifact_kind_to_str(k)), Some(k));
    }
}

#[test]
fn archetype_names_round_trip() {
    for k in [
        Archetype::Sage,
        Archetype::Caregiver,
        Archetype::Explorer,
        Archetype::Hero,
        Archetype::Magician,
        Archetype::Outlaw,
        Archetype::Lover,
        Archetype::Jester,
        Archetype::Everyman,
        Archetype::Innocent,
        Archetype::Ruler,
        Archetype::Creator,
    ] {
        assert_eq!(archetype_from_str(archetype_to_str(k)), Some(k));
    }
}

#[test]
fn cognitive_function_names_round_trip() {
    for k in [
        CognitiveFunction::Ni,
        CognitiveFunction::Ne,
        CognitiveFunction::Si,
        CognitiveFunction::Se,
        CognitiveFunction::Ti,
        CognitiveFunction::Te,
        CognitiveFunction::Fi,
        CognitiveFunction::Fe,
    ] {
        assert_eq!(cognitive_function_from_str(cognitive_function_to_str(k)), Some(k));
    }
}

#[test]
fn audio_format_names_round_trip() {
    for k in [
        AudioFormat::Wav,
        AudioFormat::Mp3,
        AudioFormat::Flac,
        AudioFormat::Ogg,
        AudioFormat::Opus,
        AudioFormat::Webm,
        AudioFormat::Mp4,
        AudioFormat::Aac,
    ] {
        let name = audio_format_to_str(k);
        assert_eq!(audio_format_from_str(name), Some(k));
        assert_eq!(parse_format(&name.to_uppercase()).ok(), Some(k));
    }
    assert_eq!(audio_format_from_str("m4a"), Some(AudioFormat::Mp4));
}

#[test]
fn hook_and_role_names_round_trip() {
    for k in [HookWhen::Pre, HookWhen::Post, HookWhen::Both] {
        assert_eq!(hook_when_from_str(hook_when_to_str(k)), Some(k));
    }
    for k in [MessageRole::System, MessageRole::User, MessageRole::Assistant, MessageRole::Tool] {
        assert_eq!(message_role_from_str(message_role_to_str(k)), Some(k));
    }
}

#[test]
fn mbti_codes_round_trip_in_any_case() {
    for code in ["INTJ", "INTP", "ENTJ", "ENTP", "INFJ", "INFP", "ENFJ", "ENFP", "ISTJ", "ISFJ", "ESTJ", "ESFJ", "ISTP", "ISFP", "ESTP", "ESFP"] {
        assert_eq!(PyMbtiType::new(code).expect("upper").code(), code);
        assert_eq!(PyMbtiType::new(&code.to_lowercase()).expect("lower").code(), code);
    }
}

#[test]
fn tool_adapter_context_and_instance() {
    let adapter = PyToolAdapter::new("descriptor", 7u8);
    assert_eq!(*adapter.descriptor(), "descriptor");
    let ctx = CallCtxSettings { agent_id: None, tokens: 1, time_ms: 2, money: (), iterations: 3, trace: vec![] };
    let v = PyToolAdapter::<&str, u8>::build_ctx_json("c1", &ctx);
    assert_eq!(v.get("tool_call_id").and_then(|x| x.as_str()).map(|s| s.as_str()), Some("c1"));
    assert_eq!(v.get("iterations_remaining").and_then(|x| x.as_u64()), Some(3));
    assert!(v.get("agent_id").is_none());
    assert_eq!(PyToolAdapter::<&str, u8>::instance_choice(true, true, true, true), InstanceChoice::Construct);
    assert_eq!(PyToolAdapter::<&str, u8>::instance_choice(false, false, false, true), InstanceChoice::Target);
}

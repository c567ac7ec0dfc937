use atomr_agents_py_bindings::adapters::{
    decode_instructions_strict, decode_persona, persona_budget_after, persona_tokens_charged,
    reconciled_identity, InstructionsError,
    callable_instance, callable_style, decode_instructions, decode_memory_items,
    decode_number_array, decode_number_arrays, harness_instance, resolve_instance, tool_instance,
    BatchShapeError, CallStyle, InstanceChoice, ItemListError, NotCallable, ShapeError,
};
use atomr_agents_py_bindings::eval::{
    decode_scorer_outcome, PyAsyncScorerAdapter, PyPairwiseChoice, PyVerdict, ScoreReply,
};
use atomr_agents_py_bindings::inference::{
    build_inference_client, FinishReason, InferenceError, MockInferenceClient, Provider,
    PyFinishReason, PyTokenUsage,
};
use atomr_agents_py_bindings::names::{
    diarization_label, parse_format, parse_when, voice_mode_label, AudioFormat, DiarizationChoice,
    HookWhen, MessageRole, PyArchetype, PyArtifactKind, PyCognitiveFunction, PyMbtiType,
    PyRenderedMessage, PySandboxProfile, PySttHarnessSpec, SttSpecError, VoiceMode,
};
use atomr_agents_py_bindings::json::parse_json_text;
use atomr_agents_py_bindings::JsonValue;

fn parse(s: &str) -> JsonValue {
    parse_json_text(s).expect("valid JSON")
}

#[test]
fn instance_choices() {
    assert_eq!(resolve_instance(true, false), Ok(InstanceChoice::Target));
    assert_eq!(resolve_instance(false, true), Ok(InstanceChoice::Construct));
    assert_eq!(resolve_instance(false, false), Err(NotCallable::NoMethodNotCallable));
    assert_eq!(harness_instance(false, false), InstanceChoice::Target);
    assert_eq!(harness_instance(false, true), InstanceChoice::Construct);
    // A class whose instances define `invoke` is instantiated.
    assert_eq!(tool_instance(true, true, true, true), InstanceChoice::Construct);
    // An instance with `invoke` is used as it is.
    assert_eq!(tool_instance(false, false, false, true), InstanceChoice::Target);
    assert_eq!(tool_instance(false, true, true, true), InstanceChoice::Target);
    // A factory function without `invoke` is called to make the instance.
    assert_eq!(tool_instance(false, true, true, false), InstanceChoice::Construct);
    assert_eq!(tool_instance(false, false, false, false), InstanceChoice::Target);
    // A class with an `invoke` attribute is still instantiated once.
    assert_eq!(callable_instance(true, true, true, true), InstanceChoice::Construct);
    assert_eq!(callable_instance(false, false, false, true), InstanceChoice::Construct);
    assert_eq!(callable_instance(false, true, false, true), InstanceChoice::Target);
    assert_eq!(callable_instance(false, false, true, true), InstanceChoice::Target);
    assert_eq!(callable_instance(false, false, false, false), InstanceChoice::Target);
    assert_eq!(callable_style(true), CallStyle::Invoke);
    assert_eq!(callable_style(false), CallStyle::Direct);
}

#[test]
fn instruction_answers() {
    let ri = decode_instructions(&parse(r#"{"system_prompt": "be brief", "estimated_tokens": 12}"#)).expect("ok");
    assert_eq!(ri.system_prompt, "be brief");
    assert_eq!(ri.estimated_tokens, 12);
    let ri = decode_instructions(&parse(r#"{"system_prompt": 3}"#)).expect("ok");
    assert_eq!(ri.system_prompt, "");
    assert_eq!(ri.estimated_tokens, 0);
    assert!(matches!(decode_instructions(&parse("[]")), Err(ShapeError::NotAnObject)));
}

#[test]
fn embedding_answers() {
    let v = decode_number_array(&parse("[1, 2.5, -3]")).expect("ok");
    let texts: Vec<String> = v.iter().map(|n| n.text.clone()).collect();
    assert_eq!(texts, vec!["1", "2.5", "-3"]);
    assert_eq!(decode_number_array(&parse(r#"[1, "x"]"#)).err(), Some(ShapeError::NotANumber { index: 1 }));
    assert_eq!(decode_number_array(&parse("{}")).err(), Some(ShapeError::NotAnArray));
    let rows = decode_number_arrays(&parse("[[1], [2, 3], []]")).expect("ok");
    assert_eq!(rows.iter().map(|r| r.len()).collect::<Vec<_>>(), vec![1, 2, 0]);
    assert_eq!(
        decode_number_arrays(&parse("[[1], [true]]")).err(),
        Some(BatchShapeError::Element { index: 1, error: ShapeError::NotANumber { index: 0 } })
    );
    assert_eq!(decode_number_arrays(&parse("5")).err(), Some(BatchShapeError::NotAnArray));
}

#[test]
fn memory_store_list_answers() {
    let items = decode_memory_items(&parse(r#"[{"id": "a", "kind": "working", "namespace": {"scope": "org", "id": "o"}}]"#)).expect("ok");
    assert_eq!(items.len(), 1);
    assert_eq!(items[0].id, "a");
    match decode_memory_items(&parse(r#"[{"id": "a", "kind": "working", "namespace": {"scope": "org", "id": "o"}}, {}]"#)) {
        Err(ItemListError::Item { index, .. }) => assert_eq!(index, 1),
        other => panic!("unexpected {other:?}"),
    }
    assert!(matches!(decode_memory_items(&parse(r#"{"id": "a"}"#)), Err(ItemListError::NotAnArray)));
}

#[test]
fn choice_and_verdict_names() {
    assert_eq!(PyPairwiseChoice::new("tie").expect("ok").name(), "tie");
    assert!(PyPairwiseChoice::new("c").is_err());
    assert_eq!(PyPairwiseChoice::a().name(), "a");
    assert_eq!(PyPairwiseChoice::b().name(), "b");
    assert_eq!(PyVerdict::new("needs_review").expect("ok").name(), "needs_review");
    assert_eq!(PyVerdict::new("maybe").err().map(|e| e.name), Some("maybe".to_string()));
}

#[test]
fn scorer_outcomes() {
    let o = decode_scorer_outcome(&parse(r#"{"passed": true, "score": 0.75, "note": "ok"}"#)).expect("ok");
    assert!(o.passed);
    assert_eq!(o.score.text, "0.75");
    assert_eq!(o.note, "ok");
    let o = decode_scorer_outcome(&parse(r#"[false, 1, "n"]"#)).expect("ok");
    assert!(!o.passed);
    assert!(decode_scorer_outcome(&parse(r#"{"passed": true, "score": 1}"#)).is_none());
    let adapter = PyAsyncScorerAdapter::new((), "judge".to_string());
    let f = adapter.fail("await", "boom");
    assert!(!f.passed);
    assert_eq!(f.score.text, "0");
    assert_eq!(f.note, "guest scorer judge await: boom");
    let c = adapter.conclude(ScoreReply::Value(parse("[]")));
    assert!(c.note.starts_with("guest scorer judge result: "));
    let c = adapter.conclude(ScoreReply::Failed { stage: "call".to_string(), message: "x".to_string() });
    assert_eq!(c.note, "guest scorer judge call: x");
}

#[test]
fn mock_inference_client() {
    let c = build_inference_client("mock").expect("mock");
    assert_eq!(c.provider(), Provider::OpenAi);
    let t = c.run();
    assert_eq!(t.text, "[mock] PyAgent.run_turn smoke response");
    assert_eq!(t.usage, PyTokenUsage::new(0, 10, 0, 0));
    assert_eq!(t.finish_reason, Some(FinishReason::Stop));
    assert!(t.tool_calls.is_empty());
    assert_eq!(MockInferenceClient::new("abcde".to_string()).run().usage.output_tokens, 2);
    assert_eq!(MockInferenceClient::new(String::new()).run().usage.output_tokens, 0);
    assert!(matches!(build_inference_client("openai"), Err(InferenceError::NotWired { .. })));
    assert!(matches!(build_inference_client("llama"), Err(InferenceError::UnknownProvider { .. })));
    assert_eq!(PyTokenUsage::new(3, 4, 5, 6).total_tokens(), 7);
}

#[test]
fn finish_reason_names() {
    assert_eq!(PyFinishReason::from(FinishReason::ToolCalls).name(), "tool_calls");
    assert_eq!(PyFinishReason::new("length").expect("ok").name(), "length");
    assert!(PyFinishReason::new("done").is_err());
}

#[test]
fn persona_type_names() {
    assert_eq!(PyMbtiType::new("intj").expect("ok").code(), "INTJ");
    assert_eq!(PyMbtiType::new("EsFp").expect("ok").code(), "ESFP");
    assert_eq!(PyMbtiType::new("abcd").err().map(|e| e.name), Some("ABCD".to_string()));
    assert!(PyMbtiType::new("INT").is_err());
    assert_eq!(PyCognitiveFunction::new("Fe").expect("ok").code(), "Fe");
    assert!(PyCognitiveFunction::new("fe").is_err());
    assert_eq!(PyArchetype::new("Jester").expect("ok").name(), "Jester");
    assert!(PyArchetype::new("Villain").is_err());
}

#[test]
fn registry_and_audio_and_hook_names() {
    assert_eq!(PyArtifactKind::new("harness_set").expect("ok").name(), "harness_set");
    assert!(PyArtifactKind::new("toolset").is_err());
    assert_eq!(parse_format("M4A").ok(), Some(AudioFormat::Mp4));
    assert_eq!(parse_format("Wav").ok(), Some(AudioFormat::Wav));
    assert_eq!(parse_format("midi").err().map(|e| e.name), Some("midi".to_string()));
    assert_eq!(parse_when("both").ok(), Some(HookWhen::Both));
    assert!(parse_when("Pre").is_err());
}

#[test]
fn message_roles_default_to_user() {
    assert_eq!(PyRenderedMessage::new("assistant", "hi".into()).role, MessageRole::Assistant);
    assert_eq!(PyRenderedMessage::new("narrator", "hi".into()).role, MessageRole::User);
    assert_eq!(PyRenderedMessage::new("tool", "x".into()).role(), "tool");
}

#[test]
fn sandbox_and_speech_settings() {
    assert_eq!(PySandboxProfile::PythonAndNpm.value(), "python_and_npm");
    let s = PySttHarnessSpec::new("stt".into(), "0.1.0", "layered_mock", "turn_based").expect("ok");
    assert_eq!(s.diarization, DiarizationChoice::LayeredMock);
    assert_eq!(s.voice_mode, VoiceMode::TurnBased { silence_ms: 800 });
    assert_eq!(diarization_label(s.diarization), "layered");
    assert_eq!(voice_mode_label(VoiceMode::Live), "live");
    assert!(matches!(PySttHarnessSpec::new("stt".into(), "x", "off", "live"), Err(SttSpecError::BadVersion { .. })));
    assert!(matches!(PySttHarnessSpec::new("stt".into(), "0.1.0", "none", "live"), Err(SttSpecError::UnknownDiarization { .. })));
    assert!(matches!(PySttHarnessSpec::new("stt".into(), "0.1.0", "off", "async"), Err(SttSpecError::UnknownVoiceMode { .. })));
}

#[test]
fn persona_answers_are_read() {
    let p = decode_persona(&parse(r#"{"identity": "a calm guide", "estimated_tokens": 40}"#)).ok().expect("persona");
    assert_eq!(p.identity, "a calm guide");
    assert_eq!(p.estimated_tokens, 40);
    let p = decode_persona(&parse(r#"{"estimated_tokens": "many"}"#)).ok().expect("persona");
    assert_eq!(p.identity, "");
    assert_eq!(p.estimated_tokens, 0);
    let p = decode_persona(&parse(r#"{"identity": 3, "estimated_tokens": 4294967297}"#)).ok().expect("persona");
    assert_eq!(p.identity, "");
    assert_eq!(p.estimated_tokens, 1);
    assert!(matches!(decode_persona(&parse("[1]")), Err(ShapeError::NotAnObject)));
    assert!(matches!(decode_persona(&parse(r#""x""#)), Err(ShapeError::NotAnObject)));
}

#[test]
fn persona_charges_at_most_what_is_left() {
    assert_eq!(persona_tokens_charged(100, 40), 40);
    assert_eq!(persona_budget_after(100, 40), 60);
    assert_eq!(persona_tokens_charged(30, 40), 30);
    assert_eq!(persona_budget_after(30, 40), 0);
    assert_eq!(persona_tokens_charged(40, 40), 40);
    assert_eq!(persona_budget_after(0, 5), 0);
}

#[test]
fn reconciled_identity_falls_back_to_empty() {
    assert_eq!(reconciled_identity(Some(&parse(r#"{"identity": "merged"}"#))), "merged");
    assert_eq!(reconciled_identity(Some(&parse(r#"{"other": 1}"#))), "");
    assert_eq!(reconciled_identity(Some(&parse("[]"))), "");
    assert_eq!(reconciled_identity(None), "");
}

#[test]
fn strict_instructions_require_a_prompt() {
    let ri = decode_instructions_strict(&parse(r#"{"system_prompt": "be brief", "estimated_tokens": 7}"#)).ok().expect("ok");
    assert_eq!((ri.system_prompt.as_str(), ri.estimated_tokens), ("be brief", 7));
    let ri = decode_instructions_strict(&parse(r#"{"system_prompt": ""}"#)).ok().expect("ok");
    assert_eq!(ri.estimated_tokens, 0);
    assert_eq!(decode_instructions_strict(&parse("[]")).err(), Some(InstructionsError::NotAnObject));
    assert_eq!(decode_instructions_strict(&parse("{}")).err(), Some(InstructionsError::MissingSystemPrompt));
    assert_eq!(
        decode_instructions_strict(&parse(r#"{"system_prompt": null}"#)).err(),
        Some(InstructionsError::SystemPromptNotText)
    );
    assert_eq!(
        decode_instructions_strict(&parse(r#"{"system_prompt": "p", "estimated_tokens": 4294967296}"#)).err(),
        Some(InstructionsError::TokensNotU32)
    );
    assert_eq!(
        decode_instructions_strict(&parse(r#"{"system_prompt": "p", "estimated_tokens": null}"#)).err(),
        Some(InstructionsError::TokensNotU32)
    );
    assert_eq!(
        decode_instructions_strict(&parse(r#"{"system_prompt": "p", "estimated_tokens": 1.5}"#)).err(),
        Some(InstructionsError::TokensNotU32)
    );
    // The lenient reader takes the same answers without complaint.
    let lenient = decode_instructions(&parse(r#"{"estimated_tokens": null}"#)).ok().expect("ok");
    assert_eq!((lenient.system_prompt.as_str(), lenient.estimated_tokens), ("", 0));
}

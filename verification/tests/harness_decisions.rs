use atomr_agents_py_bindings::guest::GuestRegistry;
use atomr_agents_py_bindings::harness::{
    callable_step_outcome, decide_termination_reply, factory_step_outcome, parse_step_outcome,
    plan_from_spec, termination_choice, HarnessPlanError, PolicyDecision, PyHarnessSpec,
    PyPolicyDecision, PyTermination, PyTerminationAdapter, StepDecodeError, StepOutcome,
    Termination, TerminationChoice, TerminationKeyError, TerminationPlan, TerminationReply,
};
use atomr_agents_py_bindings::json::parse_json_text;
use atomr_agents_py_bindings::JsonValue;

fn parse(s: &str) -> JsonValue {
    parse_json_text(s).expect("valid JSON")
}

fn continue_of(o: StepOutcome) -> (JsonValue, String) {
    match o {
        StepOutcome::Continue { working_memory, label } => (working_memory, label),
        StepOutcome::Done { .. } => panic!("expected continue"),
    }
}

fn done_of(o: StepOutcome) -> (JsonValue, String) {
    match o {
        StepOutcome::Done { output, label } => (output, label),
        StepOutcome::Continue { .. } => panic!("expected done"),
    }
}

fn reason_of(t: Termination) -> Option<String> {
    match t {
        Termination::Continue => None,
        Termination::Done { reason } => Some(reason),
    }
}

#[test]
fn step_kind_continue_is_case_insensitive() {
    let v = parse(r#"{"kind": "CONTINUE", "working_memory": {"n": 2}, "label": "loop"}"#);
    let (wm, label) = continue_of(parse_step_outcome(&v).expect("ok"));
    assert_eq!(wm.get("n").and_then(|x| x.as_u64()), Some(2));
    assert_eq!(label, "loop");
}

#[test]
fn step_kind_done_defaults() {
    let v = parse(r#"{"kind": "Done"}"#);
    let (out, label) = done_of(parse_step_outcome(&v).expect("ok"));
    assert!(out.is_null());
    assert_eq!(label, "step");
}

#[test]
fn step_unknown_kind_is_reported_lowercased() {
    let v = parse(r#"{"kind": "PAUSE"}"#);
    match parse_step_outcome(&v) {
        Err(StepDecodeError::UnknownKind { kind }) => assert_eq!(kind, "pause"),
        other => panic!("unexpected {other:?}"),
    }
}

#[test]
fn step_variant_tagged_forms() {
    let v = parse(r#"{"Continue": {"working_memory": [1], "label": "x"}}"#);
    let (wm, label) = continue_of(parse_step_outcome(&v).expect("ok"));
    assert_eq!(wm.as_array().map(|a| a.len()), Some(1));
    assert_eq!(label, "x");
    let v = parse(r#"{"Done": ["out", "y"]}"#);
    let (out, label) = done_of(parse_step_outcome(&v).expect("ok"));
    assert_eq!(out.as_str().map(|s| s.as_str()), Some("out"));
    assert_eq!(label, "y");
}

#[test]
fn step_malformed_forms() {
    for text in [
        r#"{"Continue": {"working_memory": 1}}"#,
        r#"{"Done": {"output": 1, "label": 3}}"#,
        r#"{"Continue": {"working_memory": 1, "label": "a"}, "Done": {}}"#,
        r#""Continue""#,
        r#"{"kind": 5}"#,
        r#"[1, "a"]"#,
        r#"{"Stop": {"output": 1, "label": "a"}}"#,
    ] {
        match parse_step_outcome(&parse(text)) {
            Err(StepDecodeError::Malformed) => {},
            other => panic!("{text}: unexpected {other:?}"),
        }
    }
}

#[test]
fn termination_classification_follows_the_documented_answers() {
    assert_eq!(reason_of(PyTerminationAdapter::<()>::classify(&parse("true"))), Some("guest".to_string()));
    assert_eq!(reason_of(PyTerminationAdapter::<()>::classify(&parse("false"))), None);
    assert_eq!(reason_of(PyTerminationAdapter::<()>::classify(&parse("null"))), None);
    assert_eq!(reason_of(PyTerminationAdapter::<()>::classify(&parse(r#""budget""#))), Some("budget".to_string()));
    assert_eq!(reason_of(PyTerminationAdapter::<()>::classify(&parse(r#""""#))), None);
    assert_eq!(reason_of(PyTerminationAdapter::<()>::classify(&parse(r#"{"done": "finished"}"#))), Some("finished".to_string()));
    assert_eq!(reason_of(PyTerminationAdapter::<()>::classify(&parse(r#"{"done": 1}"#))), Some("guest".to_string()));
    assert_eq!(reason_of(PyTerminationAdapter::<()>::classify(&parse(r#"{"terminate": true}"#))), Some("guest".to_string()));
    assert_eq!(reason_of(PyTerminationAdapter::<()>::classify(&parse(r#"{"terminate": false}"#))), None);
    assert_eq!(reason_of(PyTerminationAdapter::<()>::classify(&parse(r#"{"continue": true}"#))), None);
    assert_eq!(reason_of(PyTerminationAdapter::<()>::classify(&parse("3"))), None);
    assert_eq!(reason_of(PyTerminationAdapter::<()>::decide(None)), Some("guest_error".to_string()));
}

#[test]
fn factory_step_shapes() {
    let (out, label) = done_of(factory_step_outcome(&parse(r#"{"done": 7, "label": "end"}"#)));
    assert_eq!(out.as_u64(), Some(7));
    assert_eq!(label, "end");
    let (wm, label) = continue_of(factory_step_outcome(&parse(r#"{"working_memory": 3}"#)));
    assert_eq!(wm.as_u64(), Some(3));
    assert_eq!(label, "step");
    let (wm, label) = continue_of(factory_step_outcome(&parse(r#"{"other": 1, "label": "z"}"#)));
    assert_eq!(wm.get("other").and_then(|x| x.as_u64()), Some(1));
    assert_eq!(label, "step");
    let (wm, _) = continue_of(factory_step_outcome(&parse("5")));
    assert_eq!(wm.as_u64(), Some(5));
}

#[test]
fn callable_step_shapes() {
    let (out, label) = done_of(callable_step_outcome(&parse(r#"{"done": "r"}"#)));
    assert_eq!(out.as_str().map(|s| s.as_str()), Some("r"));
    assert_eq!(label, "callable_done");
    let (wm, label) = continue_of(callable_step_outcome(&parse(r#"{"x": 1}"#)));
    assert_eq!(wm.get("x").and_then(|x| x.as_u64()), Some(1));
    assert_eq!(label, "callable_step");
}

#[test]
fn termination_values_round_trip() {
    let t = PyTermination::from(Termination::Done { reason: "cap".to_string() });
    assert_eq!(t.kind, "done");
    assert!(t.is_done());
    assert_eq!(reason_of(t.into_inner()), Some("cap".to_string()));
    let c = PyTermination::from(Termination::Continue);
    assert_eq!(c.kind, "continue");
    assert!(!c.is_done());
    assert_eq!(reason_of(c.into_inner()), None);
    let bare = PyTermination { kind: "done".to_string(), reason: None };
    assert_eq!(reason_of(bare.into_inner()), Some("done".to_string()));
}

#[test]
fn policy_values_round_trip() {
    match PyPolicyDecision::from(PolicyDecision::Deny { reason: "no".to_string() }).into_inner() {
        PolicyDecision::Deny { reason } => assert_eq!(reason, "no"),
        PolicyDecision::Allow => panic!("expected deny"),
    }
    assert!(matches!(PyPolicyDecision::allow().into_inner(), PolicyDecision::Allow));
    match (PyPolicyDecision { kind: "deny".to_string(), reason: None }).into_inner() {
        PolicyDecision::Deny { reason } => assert_eq!(reason, ""),
        PolicyDecision::Allow => panic!("expected deny"),
    }
    assert!(matches!((PyPolicyDecision { kind: "other".to_string(), reason: None }).into_inner(), PolicyDecision::Allow));
}

#[test]
fn strategy_termination_replies() {
    let v = PyTermination::done("why".to_string());
    assert_eq!(reason_of(decide_termination_reply(TerminationReply::Value(v))), Some("why".to_string()));
    assert_eq!(reason_of(decide_termination_reply(TerminationReply::Value(PyTermination::continue_()))), None);
    assert_eq!(
        reason_of(decide_termination_reply(TerminationReply::Other { truthy: true, text: Some("s".to_string()) })),
        Some("s".to_string())
    );
    assert_eq!(reason_of(decide_termination_reply(TerminationReply::Other { truthy: true, text: None })), Some("done".to_string()));
    assert_eq!(reason_of(decide_termination_reply(TerminationReply::Other { truthy: false, text: None })), None);
    assert_eq!(reason_of(decide_termination_reply(TerminationReply::Failed)), None);
}

#[test]
fn termination_keys() {
    assert!(matches!(termination_choice("iteration_cap"), Ok(TerminationChoice::IterationCap { cap: 100 })));
    assert!(matches!(termination_choice("iteration_cap:32"), Ok(TerminationChoice::IterationCap { cap: 32 })));
    match termination_choice("iteration_cap:x") {
        Err(TerminationKeyError::BadCap { text }) => assert_eq!(text, "x"),
        other => panic!("unexpected {other:?}"),
    }
    match termination_choice("iteration_capped") {
        Err(TerminationKeyError::Unrecognized { key }) => assert_eq!(key, "iteration_capped"),
        other => panic!("unexpected {other:?}"),
    }
    match termination_choice("my_term") {
        Ok(TerminationChoice::Guest { key }) => assert_eq!(key, "my_term"),
        other => panic!("unexpected {other:?}"),
    }
}

#[test]
fn harness_plans_resolve_registered_guests() {
    let mut reg: GuestRegistry<String, u32> = GuestRegistry::new();
    reg.register_kind("loop_strategy", "loop".to_string(), 1);
    reg.register_kind("termination", "stop".to_string(), 2);
    let p = plan_from_spec(&reg, "loop", "stop").expect("plan");
    assert_eq!(*p.loop_target, 1);
    assert!(matches!(p.termination, TerminationPlan::Guest { target: &2, .. }));
    let p = plan_from_spec(&reg, "loop", "iteration_cap:5").expect("plan");
    assert!(matches!(p.termination, TerminationPlan::IterationCap { cap: 5 }));
    assert!(matches!(plan_from_spec(&reg, "nope", "stop"), Err(HarnessPlanError::NoLoopStrategy { .. })));
    assert!(matches!(plan_from_spec(&reg, "loop", "other"), Err(HarnessPlanError::NoTermination { .. })));
    assert!(matches!(plan_from_spec(&reg, "loop", "iteration_cap!"), Err(HarnessPlanError::BadTerminationKey { .. })));
}

#[test]
fn harness_spec_checks_its_version() {
    let s = PyHarnessSpec::new("h".to_string(), "1.2.3", 8000, None).expect("spec");
    assert_eq!((s.version.major, s.version.minor, s.version.patch), (1, 2, 3));
    assert!(PyHarnessSpec::new("h".to_string(), "1.2", 8000, None).is_err());
}

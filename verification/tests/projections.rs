use atomr_agents_py_bindings::ctx::CallCtxSettings;
use atomr_agents_py_bindings::inference::{FinishReason, PyCacheKey, PyCachedTurn, PyFinishReason, PyTokenUsage};
use atomr_agents_py_bindings::names::MessageRole;
use atomr_agents_py_bindings::pipeline::branch_taken;
use atomr_agents_py_bindings::projection::{
    build_agent_ctx_json, build_budget_json, build_state_json, callctx_to_json, invoke_ctx_to_json,
    AgentContextView, PyHarnessState, PyStepEvent,
};
use atomr_agents_py_bindings::JsonValue;

fn keys(v: &JsonValue) -> Vec<String> {
    match v {
        JsonValue::Object(es) => es.iter().map(|(k, _)| k.clone()).collect(),
        _ => panic!("expected an object"),
    }
}

#[test]
fn agent_context_projection() {
    let ctx = AgentContextView {
        agent_id: "a1".to_string(),
        team_id: None,
        org_id: Some("o".to_string()),
        user: "hello".to_string(),
        history: vec![(MessageRole::Assistant, "hi".to_string())],
    };
    let v = build_agent_ctx_json(&ctx);
    assert_eq!(keys(&v), vec!["agent_id", "org_id", "turn"]);
    let turn = v.get("turn").expect("turn");
    assert_eq!(turn.get("user").and_then(|u| u.as_str()).map(|s| s.as_str()), Some("hello"));
    let h = turn.get("history").and_then(|h| h.as_array()).expect("history");
    assert_eq!(h[0].get("role").and_then(|r| r.as_str()).map(|s| s.as_str()), Some("assistant"));
    assert_eq!(h[0].get("content").and_then(|r| r.as_str()).map(|s| s.as_str()), Some("hi"));
}

#[test]
fn budget_and_call_context_projection() {
    let b = build_budget_json(10, 2);
    assert_eq!(b.get("remaining").and_then(|x| x.as_u64()), Some(10));
    assert_eq!(b.get("reserved").and_then(|x| x.as_u64()), Some(2));
    let c = CallCtxSettings { agent_id: None, tokens: 5, time_ms: 6, money: 7u64, iterations: 8, trace: vec!["t".to_string()] };
    let v = callctx_to_json(&c);
    assert_eq!(
        keys(&v),
        vec!["tokens_remaining", "time_ms_remaining", "money_micro_usd_remaining", "iterations_remaining", "trace"]
    );
    assert_eq!(v.get("money_micro_usd_remaining").and_then(|x| x.as_u64()), Some(7));
    let i = invoke_ctx_to_json("call-1", &CallCtxSettings { agent_id: Some("ag".to_string()), ..c });
    assert_eq!(
        keys(&i),
        vec!["tool_call_id", "agent_id", "trace", "tokens_remaining", "time_ms_remaining", "iterations_remaining"]
    );
}

#[test]
fn harness_state_projection() {
    let hist = vec![PyStepEvent { iteration: 1, outcome: "continue".to_string(), timestamp_ms: -5 }];
    let state = PyHarnessState { iteration: 2, remaining_tokens: 300, working_memory: JsonValue::Str("wm".to_string()), history: hist };
    let v = build_state_json(&state);
    assert_eq!(v.get("iteration").and_then(|x| x.as_u64()), Some(2));
    assert_eq!(v.get("remaining_tokens").and_then(|x| x.as_u64()), Some(300));
    let h = v.get("history").and_then(|x| x.as_array()).expect("history");
    assert_eq!(h[0].get("timestamp_ms").and_then(|x| x.as_i64()), Some(-5));
}

#[test]
fn branch_and_cache_values() {
    assert!(branch_taken(Some(true)));
    assert!(!branch_taken(Some(false)));
    assert!(!branch_taken(None));
    let t = PyCachedTurn::new("x".to_string(), None, Some(PyFinishReason::from(FinishReason::Length)));
    assert_eq!(t.finish_reason, Some(FinishReason::Stop));
    assert_eq!(t.usage, PyTokenUsage::new(0, 0, 0, 0));
    let k = PyCacheKey::new("m".to_string(), 1, 2);
    assert_eq!((k.messages_hash, k.sampling_hash), (1, 2));
}

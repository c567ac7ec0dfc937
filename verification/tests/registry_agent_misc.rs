use atomr_agents_py_bindings::agent::{
    build_guest_toolset, plan_agent, turn_ctx, AgentPlanError, PyAgentBudgets, PyAgentSpec,
    ToolSetError,
};
use atomr_agents_py_bindings::ctx::{callable_loop_ctx, callctx_from_pydict, CallCtxSettings, CtxEntries, CtxError, CtxInput};
use atomr_agents_py_bindings::projection::callctx_to_json;
use atomr_agents_py_bindings::guest::{GuestError, GuestRegistry};
use atomr_agents_py_bindings::names::ArtifactKind;
use atomr_agents_py_bindings::observability::emit_run_plan;
use atomr_agents_py_bindings::org::{dispatch_route, namespaced_memory_plan, OrgUnitBuilder};
use atomr_agents_py_bindings::memory::MemoryNamespace;
use atomr_agents_py_bindings::pipeline::{run_config, PipelineError, PyPipeline, Stage};
use atomr_agents_py_bindings::registry::{check_artifact, new_record, PublishError};
use atomr_agents_py_bindings::retrieval::{compress_text, query_variants, trim, StaticExpander};
use atomr_agents_py_bindings::version::parse_version;
use atomr_agents_py_bindings::json::parse_json_text;
use atomr_agents_py_bindings::JsonValue;

fn parse(s: &str) -> JsonValue {
    parse_json_text(s).expect("valid JSON")
}

#[test]
fn guest_registry_register_lookup_and_replace() {
    let mut reg: GuestRegistry<String, u32> = GuestRegistry::new();
    let h = reg.register_kind("scorer", "s".to_string(), 1);
    assert_eq!((h.kind.as_str(), h.key.as_str()), ("scorer", "s"));
    assert_eq!(reg.lookup("scorer", "s"), Some(&1));
    reg.register_kind("scorer", "s".to_string(), 2);
    assert_eq!(reg.lookup("scorer", "s"), Some(&2));
    assert_eq!(reg.guest_count(), 1);
    assert_eq!(reg.lookup("memory", "s"), None);
    match reg.must_lookup("memory", "s") {
        Err(GuestError::NotRegistered { kind, key }) => assert_eq!((kind.as_str(), key.as_str()), ("memory", "s")),
        _ => panic!("expected an error"),
    }
    let h = reg.register_strategy("loop", "l".to_string(), 7);
    assert_eq!(h.kind, "strategy:loop");
    assert_eq!(reg.lookup("strategy:loop", "l"), Some(&7));
}

#[test]
fn guest_registry_fallback_lookup() {
    let mut reg: GuestRegistry<String, u32> = GuestRegistry::new();
    reg.register_kind("memory", "m".to_string(), 4);
    assert_eq!(reg.lookup_with_fallback("strategy:memory", "memory", "m").ok(), Some(&4));
    reg.register_kind("strategy:memory", "m".to_string(), 5);
    assert_eq!(reg.lookup_with_fallback("strategy:memory", "memory", "m").ok(), Some(&5));
    match reg.lookup_with_fallback("strategy:memory", "memory", "z") {
        Err(GuestError::NotRegistered { kind, .. }) => assert_eq!(kind, "memory"),
        _ => panic!("expected an error"),
    }
}

#[test]
fn guest_registry_tools_list_and_clear() {
    let mut reg: GuestRegistry<String, u32> = GuestRegistry::new();
    reg.register_tool("calc".to_string(), 1, Some("desc".to_string()));
    reg.register_tool("bare".to_string(), 2, None);
    reg.register_kind("scorer", "j".to_string(), 3);
    assert_eq!(reg.tool_count(), 1);
    let mut tools = reg.list_factories("tool");
    tools.sort();
    assert_eq!(tools, vec!["bare".to_string(), "calc".to_string()]);
    assert_eq!(reg.list_factories("scorer"), vec!["j".to_string()]);
    let all = reg.all_tools();
    assert_eq!(all.len(), 1);
    assert_eq!(all[0].descriptor, "desc");
    assert!(reg.tools_for_keys(&vec!["calc".to_string()]).is_ok());
    match reg.tools_for_keys(&vec!["calc".to_string(), "bare".to_string()]) {
        Err(GuestError::NoTool { key }) => assert_eq!(key, "bare"),
        _ => panic!("expected an error"),
    }
    assert_eq!(reg.clear(), 4);
    assert!(reg.list_factories("tool").is_empty());
    assert_eq!(reg.lookup("scorer", "j"), None);
}

#[test]
fn guest_toolsets_and_agent_plans() {
    let mut reg: GuestRegistry<String, u32> = GuestRegistry::new();
    reg.register_tool("calc".to_string(), 1, Some("d".to_string()));
    let ts = build_guest_toolset(&reg, "set".to_string(), "1.0.0", None).expect("set");
    assert_eq!(ts.tools.len(), 1);
    assert!(matches!(build_guest_toolset(&reg, "set".to_string(), "one", None), Err(ToolSetError::BadVersion { .. })));
    assert!(matches!(
        build_guest_toolset(&reg, "set".to_string(), "1.0.0", Some(&vec!["nope".to_string()])),
        Err(ToolSetError::NoTool { .. })
    ));
    reg.register_strategy("instruction", "i".to_string(), 10);
    reg.register_strategy("memory", "m".to_string(), 11);
    reg.register_strategy("skill", "s".to_string(), 12);
    let plan = plan_agent(&reg, "bot", "i", "m", "s", "", Some(&vec!["calc".to_string()]), "mock").expect("plan");
    assert_eq!((*plan.instruction, *plan.memory, *plan.skill), (10, 11, 12));
    let tools = plan.tools.expect("tools");
    assert_eq!(tools.id, "agent:bot");
    assert_eq!(tools.version.major, 0);
    assert!(plan.persona.is_none());
    assert!(plan_agent(&reg, "bot", "i", "m", "s", "", Some(&vec![]), "mock").expect("plan").tools.is_none());
    assert!(matches!(plan_agent(&reg, "bot", "x", "m", "s", "", None, "mock"), Err(AgentPlanError::NoInstruction { .. })));
    assert!(matches!(plan_agent(&reg, "bot", "i", "x", "s", "", None, "mock"), Err(AgentPlanError::NoMemory { .. })));
    assert!(matches!(plan_agent(&reg, "bot", "i", "m", "x", "", None, "mock"), Err(AgentPlanError::NoSkill { .. })));
    assert!(matches!(plan_agent(&reg, "bot", "i", "m", "s", "p", None, "mock"), Err(AgentPlanError::NoPersona { .. })));
    assert!(matches!(plan_agent(&reg, "bot", "i", "m", "s", "", None, "gemini"), Err(AgentPlanError::Inference { .. })));
    assert!(matches!(
        plan_agent(&reg, "bot", "i", "m", "s", "", Some(&vec!["ghost".to_string()]), "mock"),
        Err(AgentPlanError::ToolSet { .. })
    ));
}

#[test]
fn agent_defaults() {
    let spec = PyAgentSpec::new("a".to_string(), "gpt".to_string(), 8, 8000, 60_000, 1.0f64);
    assert_eq!(spec.max_iterations, 8);
    let b = PyAgentBudgets::defaults(1.0f64);
    assert_eq!((b.tokens, b.time_ms, b.iterations), (8000, 60_000, 8));
    let c = turn_ctx(&spec);
    assert_eq!(c.agent_id.as_deref(), Some("a"));
    assert_eq!((c.tokens, c.time_ms, c.iterations), (8000, 60_000, 8));
}

#[test]
fn turn_budgets_come_from_the_spec() {
    let spec = PyAgentSpec::new("small".to_string(), "gpt".to_string(), 2, 100, 5_000, 0.25f64);
    let c = turn_ctx(&spec);
    assert_eq!(c.agent_id.as_deref(), Some("small"));
    assert_eq!((c.tokens, c.time_ms, c.iterations), (100, 5_000, 2));
    assert_eq!(c.money, 0.25);
    assert!(c.trace.is_empty());
}

fn no_entries() -> CtxEntries<f64> {
    CtxEntries {
        agent_id: None,
        tokens_remaining: None,
        tokens: None,
        token_budget: None,
        time_ms_remaining: None,
        time_ms: None,
        time_budget_ms: None,
        money_usd: None,
        money_budget_usd: None,
        iterations_remaining: None,
        iterations: None,
        iteration_budget: None,
        trace: None,
    }
}

#[test]
fn call_contexts_from_python() {
    let c = callctx_from_pydict(CtxInput::<f64>::Absent, 1000.0).ok().expect("ctx");
    assert_eq!((c.tokens, c.time_ms, c.iterations), (1_000_000, 3_600_000, 1_000));
    assert!(c.agent_id.is_none());
    let mut e = no_entries();
    e.tokens = Some(5);
    e.token_budget = Some(6);
    e.time_ms = Some(7);
    e.money_usd = Some(2.0);
    e.iteration_budget = Some(3);
    e.trace = Some(vec!["t".to_string()]);
    e.agent_id = Some("ag".to_string());
    let c = callctx_from_pydict(CtxInput::Dict(e), 1000.0).ok().expect("ctx");
    assert_eq!((c.tokens, c.time_ms, c.iterations), (6, 7, 3));
    assert_eq!(c.money, 2.0);
    assert_eq!(c.trace, vec!["t".to_string()]);
    assert_eq!(c.agent_id.as_deref(), Some("ag"));
    assert!(matches!(callctx_from_pydict(CtxInput::<f64>::NotADict, 1000.0), Err(CtxError::NotADict)));
    let l = callable_loop_ctx(4, 99, 1000.0f64);
    assert_eq!((l.tokens, l.iterations, l.time_ms), (99, 5, 3_600_000));
}

#[test]
fn remaining_keys_are_read_below_the_named_ones() {
    let mut e = no_entries();
    e.tokens_remaining = Some(11);
    e.time_ms_remaining = Some(12);
    e.iterations_remaining = Some(13);
    let c = callctx_from_pydict(CtxInput::Dict(e), 1000.0).ok().expect("ctx");
    assert_eq!((c.tokens, c.time_ms, c.iterations), (11, 12, 13));
    let mut e = no_entries();
    e.tokens_remaining = Some(11);
    e.tokens = Some(21);
    let c = callctx_from_pydict(CtxInput::Dict(e), 1000.0).ok().expect("ctx");
    assert_eq!(c.tokens, 21);
}

#[test]
fn written_call_context_reads_back() {
    let written = CallCtxSettings {
        agent_id: Some("ag".to_string()),
        tokens: 5,
        time_ms: 6,
        money: 7u64,
        iterations: 2,
        trace: vec!["a".to_string(), "b".to_string()],
    };
    let v = callctx_to_json(&written);
    let mut e = no_entries();
    e.agent_id = v.get("agent_id").and_then(|x| x.as_str()).cloned();
    e.tokens_remaining = v.get("tokens_remaining").and_then(|x| x.as_u64()).map(|n| n as u32);
    e.time_ms_remaining = v.get("time_ms_remaining").and_then(|x| x.as_u64());
    e.iterations_remaining = v.get("iterations_remaining").and_then(|x| x.as_u64()).map(|n| n as u32);
    e.trace = v.get("trace").and_then(|x| x.as_array()).map(|a| {
        a.iter().map(|x| x.as_str().cloned().expect("string")).collect()
    });
    let c = callctx_from_pydict(CtxInput::Dict(e), 1000.0).ok().expect("ctx");
    assert_eq!(c.agent_id.as_deref(), Some("ag"));
    assert_eq!((c.tokens, c.time_ms, c.iterations), (5, 6, 2));
    assert_eq!(c.trace, vec!["a".to_string(), "b".to_string()]);
}

#[test]
fn pipeline_builder_state() {
    let mut p = PyPipeline::from_(1u8);
    assert!(p.then(2).is_ok());
    assert!(p.assign("k".to_string(), 3).is_ok());
    assert!(p.passthrough().is_ok());
    assert!(p.fan_out_with(vec![("x".to_string(), 4)]).is_ok());
    let stages = p.build().ok().expect("built");
    assert_eq!(stages.len(), 5);
    assert!(matches!(stages[0], Stage::Then(1)));
    assert!(matches!(stages[3], Stage::Passthrough));
    assert_eq!(p.then(5), Err(PipelineError::AlreadyBuilt));
    assert!(p.build().is_err());
    // Once built, every builder call is refused and the pipeline stays built.
    assert_eq!(p.assign("k".to_string(), 6), Err(PipelineError::AlreadyBuilt));
    assert_eq!(p.passthrough(), Err(PipelineError::AlreadyBuilt));
    assert_eq!(p.fan_out_with(vec![("y".to_string(), 7)]), Err(PipelineError::AlreadyBuilt));
    assert_eq!(p.then(8), Err(PipelineError::AlreadyBuilt));
    assert!(matches!(p.build(), Err(PipelineError::AlreadyBuilt)));
}

#[test]
fn run_configs() {
    let c = run_config(Some("r".to_string()), None, Some(&parse(r#"{"a": 1}"#))).ok().expect("cfg");
    assert_eq!(c.metadata.len(), 1);
    assert!(c.tags.is_empty());
    assert!(run_config(None, None, Some(&parse("null"))).ok().expect("cfg").metadata.is_empty());
    assert!(run_config(None, None, Some(&parse("[1]"))).is_err());
}

#[test]
fn query_expansion() {
    let v = query_variants(3, None);
    assert_eq!(v, vec!["variant0".to_string(), "variant1".to_string(), "variant2".to_string()]);
    assert_eq!(query_variants(0, None), vec!["variant0".to_string()]);
    assert_eq!(query_variants(9, Some(vec!["a".to_string()])), vec!["a".to_string()]);
    let e = StaticExpander { variants: vec!["x".to_string(), "y".to_string()] };
    assert_eq!(e.expand("q"), vec!["q x".to_string(), "q y".to_string()]);
}

#[test]
fn sentence_filter_keeps_mentioning_sentences() {
    let text = "Rust is fast. Python is slow.  The borrow checker helps RUST users. ";
    assert_eq!(
        compress_text("rust?", text),
        Some("Rust is fast.  The borrow checker helps RUST users".to_string())
    );
    assert_eq!(compress_text("java", text), None);
    assert_eq!(compress_text("", text), None);
    assert_eq!(trim("  a b \n"), "a b");
    assert_eq!(trim(" \t "), "");
    // Unicode white space is trimmed; a zero-width space is not white space.
    assert_eq!(trim("\u{3000}x\u{a0}\u{2029}"), "x");
    assert_eq!(trim("\u{200b}x"), "\u{200b}x");
    assert_eq!(trim("\u{85}y\u{1680}"), "y");
}

#[test]
fn sentences_are_kept_by_substring_match() {
    let text = "An apple. A pear. Pineapples too.";
    assert_eq!(compress_text("apple", text), Some("An apple. Pineapples too".to_string()));
    assert_eq!(compress_text("pear", text), Some("A pear".to_string()));
    assert_eq!(compress_text("a", "b. c."), None);
}

#[test]
fn artifact_publication_checks() {
    let (k, v) = check_artifact("tool_set", "0.1.0").ok().expect("ok");
    assert_eq!(k, ArtifactKind::ToolSet);
    assert_eq!(v.minor, 1);
    assert!(matches!(check_artifact("tools", "0.1.0"), Err(PublishError::UnknownKind { .. })));
    assert!(matches!(check_artifact("tool_set", "x"), Err(PublishError::BadVersion { .. })));
    let r = new_record(k, "calc".to_string(), v, JsonValue::Null);
    assert_eq!(r.id, "calc");
    assert!(r.published_at_ms > 0);
}

#[test]
fn org_units_and_routes() {
    let mut t: OrgUnitBuilder<u8, u8, u8> = OrgUnitBuilder::new("team".to_string(), None, 0);
    assert_eq!(t.label, "team");
    assert_eq!(dispatch_route(&parse(r#"{"route": "a"}"#), t.children.len(), &t.label).err().map(|e| e.unit_label), Some("team".to_string()));
    t.add_agent("a".to_string(), 1);
    t.grant_toolset("ts".to_string());
    assert_eq!(t.granted_toolsets, vec!["ts".to_string()]);
    assert_eq!(dispatch_route(&parse(r#"{"route": "a"}"#), t.children.len(), &t.label).ok(), Some("a".to_string()));
    assert_eq!(dispatch_route(&parse(r#"{"route": 3}"#), t.children.len(), &t.label).ok(), Some(String::new()));
    let p = namespaced_memory_plan(MemoryNamespace::Agent("bob".to_string()), None, None, false).ok().expect("plan");
    assert_eq!((p.org_id.as_str(), p.agent_id.as_str()), ("default", "bob"));
    assert!(namespaced_memory_plan(MemoryNamespace::Team("t".to_string()), None, None, true).is_err());
}

#[test]
fn run_emission_plans() {
    let e = emit_run_plan("backpressure", None, None).ok().expect("ok");
    assert_eq!(e.run_id, "run-anonymous");
    assert_eq!(e.actor_path, "/python");
    assert_eq!(emit_run_plan("tool_invoked", None, None).err().map(|u| u.kind), Some("tool_invoked".to_string()));
}

#[test]
fn semantic_versions() {
    let v = parse_version("1.2.3-alpha.1+build.5").ok().expect("ok");
    assert_eq!((v.major, v.minor, v.patch), (1, 2, 3));
    assert_eq!(v.pre, "alpha.1");
    assert_eq!(v.build, "build.5");
    assert!(parse_version("1.0").is_err());
    assert!(parse_version("1.0.01").is_err());
}

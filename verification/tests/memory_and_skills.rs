use atomr_agents_py_bindings::memory::{
    decode_chunks, decode_chunks_lenient, memory_item_to_json, memory_kind_from_str,
    memory_kind_to_str, parse_memory_item_value, parse_namespace_value, ListShapeError,
    MemoryItemError, MemoryKind, MemoryNamespace, PyMemoryItem,
};
use atomr_agents_py_bindings::skill::{
    decode_skill_refs, decode_skill_refs_lenient, merge_keywords, PySkill, PySkillSet,
};
use atomr_agents_py_bindings::json::parse_json_text;
use atomr_agents_py_bindings::JsonValue;

fn parse(s: &str) -> JsonValue {
    parse_json_text(s).expect("valid JSON")
}

#[test]
fn memory_item_reads_with_defaults() {
    let v = parse(r#"{"id": "m1", "kind": "semantic", "namespace": {"scope": "team", "id": "t"}, "tags": ["a", 3, "b"]}"#);
    let item = parse_memory_item_value(&v).expect("item");
    assert_eq!(item.id, "m1");
    assert_eq!(item.kind, MemoryKind::Semantic);
    assert!(matches!(item.namespace, MemoryNamespace::Team(ref t) if t == "t"));
    assert!(item.payload.is_null());
    assert_eq!(item.timestamp_ms, 0);
    assert_eq!(item.tags, vec!["a".to_string(), "b".to_string()]);
}

#[test]
fn memory_item_errors_come_in_order() {
    let cases: Vec<(&str, fn(&MemoryItemError) -> bool)> = vec![
        ("[]", |e| matches!(e, MemoryItemError::NotAnObject)),
        (r#"{"kind": "working"}"#, |e| matches!(e, MemoryItemError::MissingId)),
        (r#"{"id": "x"}"#, |e| matches!(e, MemoryItemError::MissingKind)),
        (r#"{"id": "x", "kind": "dream"}"#, |e| matches!(e, MemoryItemError::UnknownKind { kind } if kind == "dream")),
        (r#"{"id": "x", "kind": "working"}"#, |e| matches!(e, MemoryItemError::MissingNamespace)),
        (r#"{"id": "x", "kind": "working", "namespace": 1}"#, |e| matches!(e, MemoryItemError::NamespaceNotAnObject)),
        (r#"{"id": "x", "kind": "working", "namespace": {"id": "a"}}"#, |e| matches!(e, MemoryItemError::MissingScope)),
        (r#"{"id": "x", "kind": "working", "namespace": {"scope": "agent"}}"#, |e| matches!(e, MemoryItemError::MissingNamespaceId)),
        (r#"{"id": "x", "kind": "working", "namespace": {"scope": "world", "id": "a"}}"#, |e| matches!(e, MemoryItemError::UnknownScope { scope } if scope == "world")),
    ];
    for (text, check) in cases {
        let err = parse_memory_item_value(&parse(text)).expect_err(text);
        assert!(check(&err), "{text}: {err:?}");
    }
}

#[test]
fn memory_item_written_then_read_is_unchanged() {
    let item = PyMemoryItem::new(
        "m9".to_string(),
        MemoryKind::Scratchpad,
        MemoryNamespace::Org("acme".to_string()),
        parse(r#"{"note": [1, 2]}"#),
        Some(-1234),
        Some(vec!["x".to_string(), "y".to_string()]),
    )
    .inner;
    let back = parse_memory_item_value(&memory_item_to_json(&item)).expect("round trip");
    assert_eq!(back.id, "m9");
    assert_eq!(back.kind, MemoryKind::Scratchpad);
    assert!(matches!(back.namespace, MemoryNamespace::Org(ref o) if o == "acme"));
    assert_eq!(back.timestamp_ms, -1234);
    assert_eq!(back.tags, vec!["x".to_string(), "y".to_string()]);
    assert_eq!(back.payload.get("note").and_then(|n| n.as_array()).map(|a| a.len()), Some(2));
}

#[test]
fn memory_item_without_timestamp_is_stamped_now() {
    let item = PyMemoryItem::new(
        "m".to_string(),
        MemoryKind::Episodic,
        MemoryNamespace::Agent("a".to_string()),
        JsonValue::Null,
        None,
        None,
    )
    .inner;
    assert!(item.timestamp_ms > 1_600_000_000_000);
    assert!(item.tags.is_empty());
}

#[test]
fn memory_kind_names() {
    for k in [MemoryKind::Episodic, MemoryKind::Semantic, MemoryKind::Working, MemoryKind::Scratchpad] {
        assert_eq!(memory_kind_from_str(memory_kind_to_str(k)), Some(k));
    }
    assert_eq!(memory_kind_from_str("Episodic"), None);
}

#[test]
fn namespace_reading() {
    let ns = parse_namespace_value(&parse(r#"{"scope": "agent", "id": "bob"}"#)).expect("ns");
    assert!(matches!(ns, MemoryNamespace::Agent(ref a) if a == "bob"));
}

#[test]
fn chunks_strict_reading() {
    let v = parse(r#"[{"source_id": "s", "text": "t", "score": 0.5, "estimated_tokens": 4294967297}, {}]"#);
    let cs = decode_chunks(&v).expect("chunks");
    assert_eq!(cs.len(), 2);
    assert_eq!(cs[0].source_id, "s");
    assert_eq!(cs[0].text, "t");
    assert_eq!(cs[0].score.as_ref().map(|n| n.text.clone()), Some("0.5".to_string()));
    assert_eq!(cs[0].estimated_tokens, 1);
    assert_eq!(cs[1].source_id, "");
    assert!(cs[1].score.is_none());
    assert!(matches!(decode_chunks(&parse("{}")), Err(ListShapeError::NotAnArray)));
    assert!(matches!(decode_chunks(&parse(r#"[{}, 3]"#)), Err(ListShapeError::NotAnObject { index: 1 })));
}

#[test]
fn chunks_lenient_reading() {
    let v = parse(r#"[{"source_id": "a", "text": 5}, {"text": "no id"}, 7, {"source_id": "b"}, {"source_id": "c", "text": "kept"}]"#);
    let cs = decode_chunks_lenient(&v);
    assert_eq!(cs.len(), 2);
    assert_eq!(cs[0].source_id, "a");
    assert_eq!(cs[0].text, "");
    assert_eq!(cs[1].text, "kept");
    assert!(decode_chunks_lenient(&parse("null")).is_empty());
}

#[test]
fn skill_refs_strict_reading() {
    let v = parse(r#"[{"id": "s1", "name": "One", "priority": 9}, {"id": "s2"}, {"id": "s3", "priority": 300}]"#);
    let refs = decode_skill_refs(&v).expect("refs");
    assert_eq!(refs.len(), 3);
    assert_eq!((refs[0].id.as_str(), refs[0].name.as_str(), refs[0].priority), ("s1", "One", 9));
    assert_eq!(refs[1].priority, 5);
    assert_eq!(refs[2].priority, 44);
    assert!(matches!(decode_skill_refs(&parse(r#"[{"name": "x"}]"#)), Err(ListShapeError::MissingId { index: 0 })));
    assert!(matches!(decode_skill_refs(&parse(r#"[{"id": "a"}, "b"]"#)), Err(ListShapeError::NotAnObject { index: 1 })));
}

#[test]
fn skill_refs_lenient_reading() {
    let v = parse(r#"[{"id": "s1"}, {"name": "x"}, "y", {"id": 3}, {"id": "s2", "priority": 2}]"#);
    let refs = decode_skill_refs_lenient(&v);
    assert_eq!(refs.len(), 2);
    assert_eq!(refs[0].priority, 0);
    assert_eq!(refs[1].id, "s2");
    assert_eq!(refs[1].priority, 2);
}

#[test]
fn keyword_merge_replaces_only_named_skills() {
    let a = PySkill::new("a".into(), "alpha".into(), "fa".into(), None, None, Some(vec!["old".into()]), 5).inner;
    let b = PySkill::new("b".into(), "beta".into(), "fb".into(), Some(vec!["t".into()]), None, Some(vec!["keep".into()]), 3).inner;
    let merged = merge_keywords(vec![a, b], &vec![("alpha".to_string(), vec!["new1".to_string(), "new2".to_string()])]);
    assert_eq!(merged[0].keywords, vec!["new1".to_string(), "new2".to_string()]);
    assert_eq!(merged[1].keywords, vec!["keep".to_string()]);
    assert_eq!(merged[1].tool_overlay, vec!["t".to_string()]);
    assert_eq!(merged[1].priority, 3);
}

#[test]
fn skill_defaults_and_sets() {
    let s = PySkill::new("id".into(), "n".into(), "frag".into(), None, None, None, 5).inner;
    assert!(s.tool_overlay.is_empty());
    assert!(s.keywords.is_empty());
    let set = PySkillSet::new("set".into(), "0.1.0", vec![s]).expect("set");
    assert_eq!(set.len(), 1);
    assert!(PySkillSet::new("set".into(), "v1", vec![]).is_err());
}

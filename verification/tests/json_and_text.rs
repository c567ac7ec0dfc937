use atomr_agents_py_bindings::text::{decimal_string, digits_from, eq_lowered, eq_uppered, i64_string, json_i64, parse_u64, str_eq};
use atomr_agents_py_bindings::json::parse_json_text;
use atomr_agents_py_bindings::{JsonNumber, JsonValue};

fn parse(s: &str) -> JsonValue {
    parse_json_text(s).expect("valid JSON")
}

#[test]
fn json_accessors_read_objects_and_numbers() {
    let v = parse(r#"{"a": 1, "b": [true, null, "x"], "c": -7, "d": 2.5}"#);
    assert_eq!(v.get("a").and_then(|x| x.as_u64()), Some(1));
    assert_eq!(v.get("c").and_then(|x| x.as_i64()), Some(-7));
    assert_eq!(v.get("c").and_then(|x| x.as_u64()), None);
    assert_eq!(v.get("d").and_then(|x| x.as_u64()), None);
    assert_eq!(v.get("d").and_then(|x| x.as_number()).map(|n| n.text.clone()), Some("2.5".to_string()));
    let b = v.get("b").and_then(|x| x.as_array()).expect("array");
    assert_eq!(b.len(), 3);
    assert_eq!(b[0].as_bool(), Some(true));
    assert!(b[1].is_null());
    assert_eq!(b[2].as_str().map(|s| s.as_str()), Some("x"));
    assert!(v.get("missing").is_none());
    assert!(v.is_object());
}

#[test]
fn json_integer_reading_follows_the_text() {
    let big = parse("18446744073709551615");
    assert_eq!(big.as_u64(), Some(u64::MAX));
    assert_eq!(big.as_i64(), None);
    let min = parse("-9223372036854775808");
    assert_eq!(min.as_i64(), Some(i64::MIN));
    let n = JsonValue::Number(JsonNumber { text: "42".to_string() });
    assert_eq!(n.as_u64(), Some(42));
    assert_eq!(n.as_i64(), Some(42));
    let s = JsonValue::Str("42".to_string());
    assert_eq!(s.as_u64(), None);
}

#[test]
fn json_text_is_read_into_the_model() {
    assert!(parse_json_text("{\"a\": 1").is_none());
    assert!(parse_json_text("").is_none());
    assert!(parse_json_text("1 2").is_none());
    assert!(parse_json_text("NaN").is_none());
    let v = parse_json_text(r#"{"b": [1, "x"], "a": {"c": null}}"#).expect("valid JSON");
    match &v {
        JsonValue::Object(es) => {
            let keys: Vec<&str> = es.iter().map(|(k, _)| k.as_str()).collect();
            assert_eq!(keys, vec!["a", "b"]);
        }
        _ => panic!("not an object"),
    }
    assert!(v.get("a").and_then(|x| x.get("c")).map(|x| x.is_null()).unwrap_or(false));
    let b = v.get("b").and_then(|x| x.as_array()).expect("array");
    assert_eq!(b[0].as_u64(), Some(1));
    assert_eq!(b[1].as_str().map(|s| s.as_str()), Some("x"));
    assert_eq!(parse_json_text("\"s\"").and_then(|x| x.as_str().cloned()), Some("s".to_string()));
}

#[test]
fn deep_clone_copies_nested_documents() {
    let v = parse(r#"{"k": [1, {"z": "w"}]}"#);
    let c = v.deep_clone();
    let inner = c.get("k").and_then(|x| x.as_array()).expect("array");
    assert_eq!(inner[0].as_u64(), Some(1));
    assert_eq!(inner[1].get("z").and_then(|x| x.as_str()).map(|s| s.as_str()), Some("w"));
}

#[test]
fn parse_u64_accepts_plus_and_rejects_overflow() {
    assert_eq!(parse_u64("32"), Some(32));
    assert_eq!(parse_u64("+7"), Some(7));
    assert_eq!(parse_u64(""), None);
    assert_eq!(parse_u64("+"), None);
    assert_eq!(parse_u64("-1"), None);
    assert_eq!(parse_u64("1x"), None);
    assert_eq!(parse_u64("18446744073709551615"), Some(u64::MAX));
    assert_eq!(parse_u64("18446744073709551616"), None);
    assert_eq!(digits_from("ab12", 2), Some(12));
}

#[test]
fn json_i64_reads_signed_integers() {
    assert_eq!(json_i64("-12"), Some(-12));
    assert_eq!(json_i64("9223372036854775807"), Some(i64::MAX));
    assert_eq!(json_i64("9223372036854775808"), None);
    assert_eq!(json_i64("-9223372036854775809"), None);
    assert_eq!(json_i64("-"), None);
    assert_eq!(json_i64("1.0"), None);
}

#[test]
fn decimal_strings_round_trip() {
    assert_eq!(decimal_string(0), "0");
    assert_eq!(decimal_string(1234567890), "1234567890");
    assert_eq!(decimal_string(u64::MAX), u64::MAX.to_string());
    assert_eq!(i64_string(-45), "-45");
    assert_eq!(i64_string(i64::MIN), i64::MIN.to_string());
    for n in [0u64, 9, 10, 99, 100, 65535, u64::MAX] {
        assert_eq!(parse_u64(&decimal_string(n)), Some(n));
    }
    for t in [0i64, -1, 1, i64::MIN, i64::MAX] {
        assert_eq!(json_i64(&i64_string(t)), Some(t));
    }
}

#[test]
fn case_folding_comparisons() {
    assert!(str_eq("abc", "abc"));
    assert!(!str_eq("abc", "abd"));
    assert!(eq_lowered("CoNtInUe", "continue"));
    assert!(!eq_lowered("continue", "CONTINUE"));
    assert!(eq_uppered("intj", "INTJ"));
    assert!(!eq_uppered("ïntj", "INTJ"));
}

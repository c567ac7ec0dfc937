use vstd::prelude::*;

use crate::text::{digits_from, digits_u64_spec, json_i64, json_i64_spec};
use serde_json::Value;

verus! {

/// A JSON number, kept as the decimal text that the JSON layer prints for
/// it (`12`, `-3`, `0.5`, `1e100`).
#[derive(Debug)]
pub struct JsonNumber {
    pub text: String,
}

impl View for JsonNumber {
    type V = Seq<char>;

    open spec fn view(&self) -> Seq<char> {
        self.text@
    }
}

impl JsonNumber {
    pub fn copy_number(&self) -> (r: JsonNumber)
        ensures
            r@ == self@,
    {
        JsonNumber { text: self.text.clone() }
    }
}

/// A JSON document. Object entries keep the order in which they were read.
#[derive(Debug)]
pub enum JsonValue {
    Null,
    Bool(bool),
    Number(JsonNumber),
    Str(String),
    Array(Vec<JsonValue>),
    Object(Vec<(String, JsonValue)>),
}

/// Mathematical model of a JSON document.
pub enum Json {
    Null,
    Bool(bool),
    Number(Seq<char>),
    Str(Seq<char>),
    Array(Seq<Json>),
    Object(Seq<(Seq<char>, Json)>),
}

impl JsonValue {
    pub open spec fn model(self) -> Json
        decreases self,
    {
        match self {
            JsonValue::Null => Json::Null,
            JsonValue::Bool(b) => Json::Bool(b),
            JsonValue::Number(n) => Json::Number(n@),
            JsonValue::Str(s) => Json::Str(s@),
            JsonValue::Array(a) => Json::Array(models_of(a@)),
            JsonValue::Object(o) => Json::Object(entry_models_of(o@)),
        }
    }
}

pub open spec fn models_of(s: Seq<JsonValue>) -> Seq<Json>
    decreases s,
{
    if s.len() == 0 {
        Seq::empty()
    } else {
        models_of(s.drop_last()).push(s.last().model())
    }
}

pub open spec fn entry_models_of(s: Seq<(String, JsonValue)>) -> Seq<(Seq<char>, Json)>
    decreases s,
{
    if s.len() == 0 {
        Seq::empty()
    } else {
        entry_models_of(s.drop_last()).push((s.last().0@, s.last().1.model()))
    }
}

impl View for JsonValue {
    type V = Json;

    open spec fn view(&self) -> Json {
        self.model()
    }
}


/// Whether `i` is the first position of `key` among the entries `es`.
pub open spec fn first_key_at(es: Seq<(Seq<char>, Json)>, key: Seq<char>, i: int) -> bool {
    &&& 0 <= i < es.len()
    &&& es[i].0 == key
    &&& forall|j: int| 0 <= j < i ==> (#[trigger] es[j]).0 != key
}

/// Lookup in an object's entries: the value of the first entry with `key`.
pub open spec fn entries_get(es: Seq<(Seq<char>, Json)>, key: Seq<char>) -> Option<Json> {
    if exists|i: int| first_key_at(es, key, i) {
        Some(es[choose|i: int| first_key_at(es, key, i)].1)
    } else {
        None
    }
}

impl Json {
    /// The member `key` of an object; `None` for a missing member or a non-object.
    pub open spec fn get(self, key: Seq<char>) -> Option<Json> {
        match self {
            Json::Object(es) => entries_get(es, key),
            _ => None,
        }
    }

    pub open spec fn is_object(self) -> bool {
        self is Object
    }

    pub open spec fn as_str(self) -> Option<Seq<char>> {
        match self {
            Json::Str(s) => Some(s),
            _ => None,
        }
    }

    pub open spec fn as_bool(self) -> Option<bool> {
        match self {
            Json::Bool(b) => Some(b),
            _ => None,
        }
    }

    pub open spec fn as_number(self) -> Option<Seq<char>> {
        match self {
            Json::Number(n) => Some(n),
            _ => None,
        }
    }

    /// A non-negative integer, as `serde_json`'s `as_u64` reads one: a
    /// number written with digits only, whose value fits in 64 bits.
    pub open spec fn as_u64(self) -> Option<u64> {
        match self {
            Json::Number(t) => digits_u64_spec(t),
            _ => None,
        }
    }

    /// An integer in `i64` range, as `serde_json`'s `as_i64` reads one.
    pub open spec fn as_i64(self) -> Option<i64> {
        match self {
            Json::Number(t) => json_i64_spec(t),
            _ => None,
        }
    }

    pub open spec fn as_array(self) -> Option<Seq<Json>> {
        match self {
            Json::Array(a) => Some(a),
            _ => None,
        }
    }
}

pub proof fn lemma_models_of(s: Seq<JsonValue>)
    ensures
        models_of(s).len() == s.len(),
        forall|i: int| 0 <= i < s.len() ==> #[trigger] models_of(s)[i] == s[i].model(),
    decreases s.len(),
{
    if s.len() > 0 {
        lemma_models_of(s.drop_last());
    }
}

pub proof fn lemma_entry_models_of(s: Seq<(String, JsonValue)>)
    ensures
        entry_models_of(s).len() == s.len(),
        forall|i: int|
            0 <= i < s.len() ==> #[trigger] entry_models_of(s)[i] == (s[i].0@, s[i].1.model()),
    decreases s.len(),
{
    if s.len() > 0 {
        lemma_entry_models_of(s.drop_last());
    }
}

proof fn lemma_first_key_unique(es: Seq<(Seq<char>, Json)>, key: Seq<char>, i: int, j: int)
    requires
        first_key_at(es, key, i),
        first_key_at(es, key, j),
    ensures
        i == j,
{
    if i < j {
        assert(es[i].0 != key);
    } else if j < i {
        assert(es[j].0 != key);
    }
}

/// The value of an object's entries under `key` is the one at the first
/// position holding `key`.
pub proof fn lemma_entries_get_at(es: Seq<(Seq<char>, Json)>, key: Seq<char>, i: int)
    requires
        first_key_at(es, key, i),
    ensures
        entries_get(es, key) == Some(es[i].1),
{
    let c = choose|c: int| first_key_at(es, key, c);
    lemma_first_key_unique(es, key, i, c);
}

/// No entry holding `key` means no value under `key`.
pub proof fn lemma_entries_get_none(es: Seq<(Seq<char>, Json)>, key: Seq<char>)
    requires
        forall|j: int| 0 <= j < es.len() ==> (#[trigger] es[j]).0 != key,
    ensures
        entries_get(es, key) is None,
{
}

impl JsonValue {
    /// Member `key` of an object (the first entry with that key); `None` when
    /// the value is not an object or has no such member.
    pub fn get<'a>(&'a self, key: &str) -> (r: Option<&'a JsonValue>)
        ensures
            match r {
                Some(v) => self@.get(key@) == Some(v@),
                None => self@.get(key@) is None,
            },
    {
        match self {
            JsonValue::Object(es) => {
                let ghost ms = entry_models_of(es@);
                proof {
                    lemma_entry_models_of(es@);
                }
                assert(self@ == Json::Object(ms));
                let mut i: usize = 0;
                while i < es.len()
                    invariant
                        self@ == Json::Object(ms),
                        ms == entry_models_of(es@),
                        ms.len() == es@.len(),
                        forall|k: int|
                            0 <= k < es@.len() ==> #[trigger] ms[k] == (es@[k].0@, es@[k].1.model()),
                        i <= es.len(),
                        forall|j: int| 0 <= j < i ==> (#[trigger] ms[j]).0 != key@,
                    decreases es.len() - i,
                {
                    if crate::text::str_eq(es[i].0.as_str(), key) {
                        proof {
                            assert(self@ == Json::Object(ms));
                            assert(first_key_at(ms, key@, i as int));
                            let c = choose|c: int| first_key_at(ms, key@, c);
                            lemma_first_key_unique(ms, key@, i as int, c);
                        }
                        return Some(&es[i].1);
                    }
                    i = i + 1;
                }
                assert(self@ == Json::Object(ms));
                None
            },
            _ => None,
        }
    }

    pub fn as_str<'a>(&'a self) -> (r: Option<&'a String>)
        ensures
            match r {
                Some(s) => self@.as_str() == Some(s@),
                None => self@.as_str() is None,
            },
    {
        match self {
            JsonValue::Str(s) => Some(s),
            _ => None,
        }
    }

    pub fn as_u64(&self) -> (r: Option<u64>)
        ensures
            r == self@.as_u64(),
    {
        match self {
            JsonValue::Number(n) => {
                assert(n.text@ =~= n.text@.subrange(0, n.text@.len() as int));
                digits_from(n.text.as_str(), 0)
            },
            _ => None,
        }
    }

    pub fn as_i64(&self) -> (r: Option<i64>)
        ensures
            r == self@.as_i64(),
    {
        match self {
            JsonValue::Number(n) => json_i64(n.text.as_str()),
            _ => None,
        }
    }

    pub fn as_number<'a>(&'a self) -> (r: Option<&'a JsonNumber>)
        ensures
            match r {
                Some(n) => self@.as_number() == Some(n@),
                None => self@.as_number() is None,
            },
    {
        match self {
            JsonValue::Number(n) => Some(n),
            _ => None,
        }
    }

    pub fn as_bool(&self) -> (r: Option<bool>)
        ensures
            r == self@.as_bool(),
    {
        match self {
            JsonValue::Bool(b) => Some(*b),
            _ => None,
        }
    }

    pub fn as_array<'a>(&'a self) -> (r: Option<&'a Vec<JsonValue>>)
        ensures
            match r {
                Some(a) => self@.as_array() == Some(models_of(a@)),
                None => self@.as_array() is None,
            },
    {
        match self {
            JsonValue::Array(a) => Some(a),
            _ => None,
        }
    }

    pub fn is_object(&self) -> (r: bool)
        ensures
            r == self@.is_object(),
    {
        match self {
            JsonValue::Object(_) => true,
            _ => false,
        }
    }

    pub fn is_null(&self) -> (r: bool)
        ensures
            r == (self@ == Json::Null),
    {
        match self {
            JsonValue::Null => true,
            _ => false,
        }
    }

    /// A copy of the whole document.
    pub fn deep_clone(&self) -> (r: JsonValue)
        ensures
            r@ == self@,
        decreases self,
    {
        match self {
            JsonValue::Null => JsonValue::Null,
            JsonValue::Bool(b) => JsonValue::Bool(*b),
            JsonValue::Number(n) => JsonValue::Number(n.copy_number()),
            JsonValue::Str(s) => JsonValue::Str(s.clone()),
            JsonValue::Array(a) => {
                let mut out: Vec<JsonValue> = Vec::new();
                let mut i: usize = 0;
                while i < a.len()
                    invariant
                        *self == JsonValue::Array(*a),
                        i <= a.len(),
                        out@.len() == i,
                        forall|j: int| 0 <= j < i ==> (#[trigger] out@[j])@ == a@[j]@,
                    decreases a.len() - i,
                {
                    proof {
                        assert(decreases_to!(*self => self->Array_0));
                        assert(decreases_to!(*a => a@));
                        assert(decreases_to!(a@ => a@[i as int]));
                    }
                    let c = a[i].deep_clone();
                    out.push(c);
                    i = i + 1;
                }
                proof {
                    lemma_models_of(out@);
                    lemma_models_of(a@);
                    assert(models_of(out@) =~= models_of(a@));
                }
                JsonValue::Array(out)
            },
            JsonValue::Object(es) => {
                let mut out: Vec<(String, JsonValue)> = Vec::new();
                let mut i: usize = 0;
                while i < es.len()
                    invariant
                        *self == JsonValue::Object(*es),
                        i <= es.len(),
                        out@.len() == i,
                        forall|j: int|
                            0 <= j < i ==> (#[trigger] out@[j]).0@ == es@[j].0@ && out@[j].1@
                                == es@[j].1@,
                    decreases es.len() - i,
                {
                    proof {
                        assert(decreases_to!(*self => self->Object_0));
                        assert(decreases_to!(*es => es@));
                        assert(decreases_to!(es@ => es@[i as int]));
                        assert(decreases_to!(es@[i as int] => es@[i as int].1));
                    }
                    let k = es[i].0.clone();
                    let v = es[i].1.deep_clone();
                    out.push((k, v));
                    i = i + 1;
                }
                proof {
                    lemma_entry_models_of(out@);
                    lemma_entry_models_of(es@);
                    assert(entry_models_of(out@) =~= entry_models_of(es@));
                }
                JsonValue::Object(out)
            },
        }
    }
}

/// The document that `serde_json` reads from JSON text, in this library's
/// model: `None` where the text is not exactly one JSON document. Numbers
/// keep the text `serde_json` prints for them, and an object's members come
/// in the order of `serde_json`'s map (sorted by key, the last of repeated
/// keys kept).
pub uninterp spec fn json_text_parse(text: Seq<char>) -> Option<Json>;

/// `serde_json::Value`, a document as `serde_json` holds it.
#[verifier::external_type_specification]
#[verifier::external_body]
pub struct ExSerdeValue(serde_json::Value);

/// Moves a `serde_json::Value` into this library's `JsonValue`, one node
/// for one node (a number by the text `serde_json` prints for it). It is
/// the conversion of `serde_parse_json` and states nothing of its own.
#[verifier::external_body]
fn from_serde(v: Value) -> JsonValue {
    match v {
        Value::Null => JsonValue::Null,
        Value::Bool(b) => JsonValue::Bool(b),
        Value::Number(n) => JsonValue::Number(JsonNumber { text: n.to_string() }),
        Value::String(s) => JsonValue::Str(s),
        Value::Array(a) => JsonValue::Array(a.into_iter().map(from_serde).collect()),
        Value::Object(m) => JsonValue::Object(m.into_iter().map(|(k, x)| (k, from_serde(x))).collect()),
    }
}

/// Reads JSON text with `serde_json::from_str` into a `serde_json::Value`
/// and converts it. Claimed: the result is what `json_text_parse` names
/// for the text, and `None` exactly where `serde_json` refuses the text.
#[verifier::external_body]
fn serde_parse_json(text: &str) -> (r: Option<JsonValue>)
    ensures
        match r {
            Some(v) => json_text_parse(text@) == Some(v@),
            None => json_text_parse(text@) is None,
        },
{
    serde_json::from_str::<Value>(text).ok().map(from_serde)
}

/// Reads one JSON document from its text; `None` where the text is not
/// valid JSON.
pub fn parse_json_text(text: &str) -> (r: Option<JsonValue>)
    ensures
        match r {
            Some(v) => json_text_parse(text@) == Some(v@),
            None => json_text_parse(text@) is None,
        },
{
    serde_parse_json(text)
}

} // verus!

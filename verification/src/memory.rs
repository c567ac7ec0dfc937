//! Memory records as guests hand them over: kinds, namespaces, items and
//! retrieved chunks, and the rules by which their JSON form is read.

use vstd::prelude::*;
use vstd::string::StringExecFns;

use crate::json::{entry_models_of, lemma_entry_models_of, lemma_models_of, models_of, Json, JsonNumber, JsonValue};
use crate::json::{first_key_at, lemma_entries_get_at};
use crate::text::{digits_u64_spec, i64_string, int_text, law_i64_text_round_trip, str_eq};

verus! {

/// The kind of a memory record.
#[derive(Debug, Clone, Copy, PartialEq, Eq, Structural)]
pub enum MemoryKind {
    Episodic,
    Semantic,
    Working,
    Scratchpad,
}

/// The name of a memory kind.
pub open spec fn memory_kind_name(k: MemoryKind) -> Seq<char> {
    match k {
        MemoryKind::Episodic => "episodic"@,
        MemoryKind::Semantic => "semantic"@,
        MemoryKind::Working => "working"@,
        MemoryKind::Scratchpad => "scratchpad"@,
    }
}

/// The memory kind with the name `s`, if any.
pub open spec fn memory_kind_named(s: Seq<char>) -> Option<MemoryKind> {
    if s == "episodic"@ {
        Some(MemoryKind::Episodic)
    } else if s == "semantic"@ {
        Some(MemoryKind::Semantic)
    } else if s == "working"@ {
        Some(MemoryKind::Working)
    } else if s == "scratchpad"@ {
        Some(MemoryKind::Scratchpad)
    } else {
        None
    }
}

pub fn memory_kind_to_str(k: MemoryKind) -> (r: &'static str)
    ensures
        r@ == memory_kind_name(k),
{
    match k {
        MemoryKind::Episodic => "episodic",
        MemoryKind::Semantic => "semantic",
        MemoryKind::Working => "working",
        MemoryKind::Scratchpad => "scratchpad",
    }
}

pub fn memory_kind_from_str(s: &str) -> (r: Option<MemoryKind>)
    ensures
        r == memory_kind_named(s@),
{
    if str_eq(s, "episodic") {
        Some(MemoryKind::Episodic)
    } else if str_eq(s, "semantic") {
        Some(MemoryKind::Semantic)
    } else if str_eq(s, "working") {
        Some(MemoryKind::Working)
    } else if str_eq(s, "scratchpad") {
        Some(MemoryKind::Scratchpad)
    } else {
        None
    }
}

/// Reading a kind's name gives the kind back.
pub proof fn law_memory_kind_name_round_trip(k: MemoryKind)
    ensures
        memory_kind_named(memory_kind_name(k)) == Some(k),
{
    reveal_strlit("episodic");
    reveal_strlit("semantic");
    reveal_strlit("working");
    reveal_strlit("scratchpad");
    assert("semantic"@[0] != "episodic"@[0]);
    assert("working"@[0] != "episodic"@[0]);
    assert("working"@[0] != "semantic"@[0]);
    assert("scratchpad"@[0] != "episodic"@[0]);
    assert("scratchpad"@[1] != "semantic"@[1]);
    assert("scratchpad"@[0] != "working"@[0]);
}

/// The names of the memory kinds: `episodic`, `semantic`, `working` and
/// `scratchpad`, each read back as its own kind, and no other name reads as
/// a kind.
pub proof fn law_memory_kind_names(s: Seq<char>)
    ensures
        memory_kind_name(MemoryKind::Episodic) == "episodic"@,
        memory_kind_name(MemoryKind::Semantic) == "semantic"@,
        memory_kind_name(MemoryKind::Working) == "working"@,
        memory_kind_name(MemoryKind::Scratchpad) == "scratchpad"@,
        memory_kind_named("episodic"@) == Some(MemoryKind::Episodic),
        memory_kind_named("semantic"@) == Some(MemoryKind::Semantic),
        memory_kind_named("working"@) == Some(MemoryKind::Working),
        memory_kind_named("scratchpad"@) == Some(MemoryKind::Scratchpad),
        s != "episodic"@ && s != "semantic"@ && s != "working"@ && s != "scratchpad"@
            ==> memory_kind_named(s) is None,
{
    law_memory_kind_name_round_trip(MemoryKind::Episodic);
    law_memory_kind_name_round_trip(MemoryKind::Semantic);
    law_memory_kind_name_round_trip(MemoryKind::Working);
    law_memory_kind_name_round_trip(MemoryKind::Scratchpad);
}

/// Where a memory record lives: an agent's, a team's or an org's space.
#[derive(Debug)]
pub enum MemoryNamespace {
    Agent(String),
    Team(String),
    Org(String),
}

pub enum NamespaceModel {
    Agent(Seq<char>),
    Team(Seq<char>),
    Org(Seq<char>),
}

impl View for MemoryNamespace {
    type V = NamespaceModel;

    open spec fn view(&self) -> NamespaceModel {
        match self {
            MemoryNamespace::Agent(i) => NamespaceModel::Agent(i@),
            MemoryNamespace::Team(i) => NamespaceModel::Team(i@),
            MemoryNamespace::Org(i) => NamespaceModel::Org(i@),
        }
    }
}

/// A memory record.
#[derive(Debug)]
pub struct MemoryItem {
    pub id: String,
    pub kind: MemoryKind,
    pub namespace: MemoryNamespace,
    pub payload: JsonValue,
    pub timestamp_ms: i64,
    pub tags: Vec<String>,
}

pub struct ItemModel {
    pub id: Seq<char>,
    pub kind: MemoryKind,
    pub namespace: NamespaceModel,
    pub payload: Json,
    pub timestamp_ms: i64,
    pub tags: Seq<Seq<char>>,
}

pub open spec fn texts_of(v: Seq<String>) -> Seq<Seq<char>> {
    v.map_values(|t: String| t@)
}

impl View for MemoryItem {
    type V = ItemModel;

    open spec fn view(&self) -> ItemModel {
        ItemModel {
            id: self.id@,
            kind: self.kind,
            namespace: self.namespace@,
            payload: self.payload@,
            timestamp_ms: self.timestamp_ms,
            tags: texts_of(self.tags@),
        }
    }
}

/// Why a JSON value is not a memory record.
#[derive(Debug)]
pub enum MemoryItemError {
    NotAnObject,
    MissingId,
    MissingKind,
    UnknownKind { kind: String },
    MissingNamespace,
    NamespaceNotAnObject,
    MissingScope,
    MissingNamespaceId,
    UnknownScope { scope: String },
}

pub enum ItemErrorModel {
    NotAnObject,
    MissingId,
    MissingKind,
    UnknownKind(Seq<char>),
    MissingNamespace,
    NamespaceNotAnObject,
    MissingScope,
    MissingNamespaceId,
    UnknownScope(Seq<char>),
}

impl View for MemoryItemError {
    type V = ItemErrorModel;

    open spec fn view(&self) -> ItemErrorModel {
        match self {
            MemoryItemError::NotAnObject => ItemErrorModel::NotAnObject,
            MemoryItemError::MissingId => ItemErrorModel::MissingId,
            MemoryItemError::MissingKind => ItemErrorModel::MissingKind,
            MemoryItemError::UnknownKind { kind } => ItemErrorModel::UnknownKind(kind@),
            MemoryItemError::MissingNamespace => ItemErrorModel::MissingNamespace,
            MemoryItemError::NamespaceNotAnObject => ItemErrorModel::NamespaceNotAnObject,
            MemoryItemError::MissingScope => ItemErrorModel::MissingScope,
            MemoryItemError::MissingNamespaceId => ItemErrorModel::MissingNamespaceId,
            MemoryItemError::UnknownScope { scope } => ItemErrorModel::UnknownScope(scope@),
        }
    }
}

/// The string member `key` of `v`, if it has one.
pub open spec fn str_member(v: Json, key: Seq<char>) -> Option<Seq<char>> {
    match v.get(key) {
        Some(Json::Str(s)) => Some(s),
        _ => None,
    }
}

/// How a namespace reads: an object with string members `scope` (one of
/// `agent`, `team`, `org`) and `id`.
pub open spec fn namespace_spec(v: Json) -> Result<NamespaceModel, ItemErrorModel> {
    if !v.is_object() {
        Err(ItemErrorModel::NamespaceNotAnObject)
    } else {
        match str_member(v, "scope"@) {
            None => Err(ItemErrorModel::MissingScope),
            Some(scope) => match str_member(v, "id"@) {
                None => Err(ItemErrorModel::MissingNamespaceId),
                Some(id) => if scope == "agent"@ {
                    Ok(NamespaceModel::Agent(id))
                } else if scope == "team"@ {
                    Ok(NamespaceModel::Team(id))
                } else if scope == "org"@ {
                    Ok(NamespaceModel::Org(id))
                } else {
                    Err(ItemErrorModel::UnknownScope(scope))
                },
            },
        }
    }
}

/// A namespace reads from an object with string `scope` and `id`: scope
/// `agent`, `team` or `org` gives the agent's, team's or org's space under
/// that id.
pub proof fn law_namespace_fields(v: Json, id: Seq<char>)
    requires
        v is Object,
        v.get("id"@) == Some(Json::Str(id)),
    ensures
        v.get("scope"@) == Some(Json::Str("agent"@)) ==> namespace_spec(v) == Ok::<NamespaceModel, ItemErrorModel>(
            NamespaceModel::Agent(id),
        ),
        v.get("scope"@) == Some(Json::Str("team"@)) ==> namespace_spec(v) == Ok::<NamespaceModel, ItemErrorModel>(
            NamespaceModel::Team(id),
        ),
        v.get("scope"@) == Some(Json::Str("org"@)) ==> namespace_spec(v) == Ok::<NamespaceModel, ItemErrorModel>(
            NamespaceModel::Org(id),
        ),
{
    reveal_strlit("agent");
    reveal_strlit("team");
    reveal_strlit("org");
    assert("team"@[0] != "agent"@[0]);
    assert("org"@[0] != "agent"@[0]);
    assert("org"@[0] != "team"@[0]);
}

/// A memory record that reads carries the object's own members: its
/// string `id`, the kind named by its string `kind`, the namespace its
/// `namespace` reads as, its `payload` (null where missing) and its
/// `timestamp_ms` as an `i64` (zero where missing or not one).
pub proof fn law_memory_item_fields(v: Json)
    ensures
        memory_item_spec(v) matches Ok(i) ==> {
            &&& v is Object
            &&& v.get("id"@) == Some(Json::Str(i.id))
            &&& v.get("kind"@) == Some(Json::Str(memory_kind_name(i.kind)))
            &&& v.get("namespace"@) is Some && namespace_spec(v.get("namespace"@)->Some_0) == Ok::<
                NamespaceModel,
                ItemErrorModel,
            >(i.namespace)
            &&& i.payload == match v.get("payload"@) {
                Some(p) => p,
                None => Json::Null,
            }
            &&& i.timestamp_ms == match v.get("timestamp_ms"@) {
                Some(t) => match t.as_i64() {
                    Some(n) => n,
                    None => 0,
                },
                None => 0,
            }
        },
{
    if memory_item_spec(v) is Ok {
        let k = str_member(v, "kind"@)->Some_0;
        let kind = memory_kind_named(k)->Some_0;
        law_memory_kind_names(k);
        assert(memory_kind_name(kind) == k);
    }
}

/// The strings among `xs`, in order; other elements are skipped.
pub open spec fn strings_among(xs: Seq<Json>) -> Seq<Seq<char>>
    decreases xs.len(),
{
    if xs.len() == 0 {
        Seq::empty()
    } else {
        let rest = strings_among(xs.drop_last());
        match xs.last() {
            Json::Str(s) => rest.push(s),
            _ => rest,
        }
    }
}

/// The tags of a record: the strings of the `tags` array, none where
/// there is no such array.
pub open spec fn tags_spec(v: Json) -> Seq<Seq<char>> {
    match v.get("tags"@) {
        Some(Json::Array(xs)) => strings_among(xs),
        _ => Seq::empty(),
    }
}

/// How a memory record reads: an object with a string `id`, a string
/// `kind` naming a memory kind, and a `namespace`; `payload` is `null`
/// where missing, `timestamp_ms` is `0` where missing or not an `i64`,
/// and the tags are the strings of the `tags` array.
pub open spec fn memory_item_spec(v: Json) -> Result<ItemModel, ItemErrorModel> {
    if !v.is_object() {
        Err(ItemErrorModel::NotAnObject)
    } else {
        match str_member(v, "id"@) {
            None => Err(ItemErrorModel::MissingId),
            Some(id) => match str_member(v, "kind"@) {
                None => Err(ItemErrorModel::MissingKind),
                Some(k) => match memory_kind_named(k) {
                    None => Err(ItemErrorModel::UnknownKind(k)),
                    Some(kind) => match v.get("namespace"@) {
                        None => Err(ItemErrorModel::MissingNamespace),
                        Some(nv) => match namespace_spec(nv) {
                            Err(e) => Err(e),
                            Ok(ns) => Ok(
                                ItemModel {
                                    id,
                                    kind,
                                    namespace: ns,
                                    payload: match v.get("payload"@) {
                                        Some(p) => p,
                                        None => Json::Null,
                                    },
                                    timestamp_ms: match v.get("timestamp_ms"@) {
                                        Some(t) => match t.as_i64() {
                                            Some(n) => n,
                                            None => 0,
                                        },
                                        None => 0,
                                    },
                                    tags: tags_spec(v),
                                },
                            ),
                        },
                    },
                },
            },
        }
    }
}

fn str_member_of(v: &JsonValue, key: &str) -> (r: Option<String>)
    ensures
        match r {
            Some(s) => str_member(v@, key@) == Some(s@),
            None => str_member(v@, key@) is None,
        },
{
    match v.get(key) {
        Some(x) => match x.as_str() {
            Some(s) => Some(s.clone()),
            None => None,
        },
        None => None,
    }
}

/// Reads a memory namespace.
pub fn parse_namespace_value(v: &JsonValue) -> (r: Result<MemoryNamespace, MemoryItemError>)
    ensures
        match r {
            Ok(ns) => namespace_spec(v@) == Ok::<NamespaceModel, ItemErrorModel>(ns@),
            Err(e) => namespace_spec(v@) == Err::<NamespaceModel, ItemErrorModel>(e@),
        },
{
    if !v.is_object() {
        return Err(MemoryItemError::NamespaceNotAnObject);
    }
    let scope = match str_member_of(v, "scope") {
        Some(s) => s,
        None => return Err(MemoryItemError::MissingScope),
    };
    let id = match str_member_of(v, "id") {
        Some(s) => s,
        None => return Err(MemoryItemError::MissingNamespaceId),
    };
    if str_eq(scope.as_str(), "agent") {
        Ok(MemoryNamespace::Agent(id))
    } else if str_eq(scope.as_str(), "team") {
        Ok(MemoryNamespace::Team(id))
    } else if str_eq(scope.as_str(), "org") {
        Ok(MemoryNamespace::Org(id))
    } else {
        Err(MemoryItemError::UnknownScope { scope })
    }
}

/// The strings among the elements of `xs`, in order.
fn strings_of(xs: &Vec<JsonValue>) -> (r: Vec<String>)
    ensures
        texts_of(r@) == strings_among(models_of(xs@)),
{
    let ghost ms = models_of(xs@);
    proof {
        lemma_models_of(xs@);
    }
    let mut out: Vec<String> = Vec::new();
    let mut i: usize = 0;
    while i < xs.len()
        invariant
            ms == models_of(xs@),
            ms.len() == xs@.len(),
            forall|k: int| 0 <= k < xs@.len() ==> #[trigger] ms[k] == xs@[k]@,
            i <= xs.len(),
            texts_of(out@) == strings_among(ms.take(i as int)),
        decreases xs.len() - i,
    {
        assert(ms.take(i + 1).drop_last() =~= ms.take(i as int));
        match xs[i].as_str() {
            Some(s) => {
                out.push(s.clone());
                assert(texts_of(out@) =~= strings_among(ms.take(i as int)).push(s@));
            },
            None => {},
        }
        i = i + 1;
    }
    assert(ms.take(xs.len() as int) =~= ms);
    out
}

/// Reads a memory record.
pub fn parse_memory_item_value(v: &JsonValue) -> (r: Result<MemoryItem, MemoryItemError>)
    ensures
        match r {
            Ok(item) => memory_item_spec(v@) == Ok::<ItemModel, ItemErrorModel>(item@),
            Err(e) => memory_item_spec(v@) == Err::<ItemModel, ItemErrorModel>(e@),
        },
{
    if !v.is_object() {
        return Err(MemoryItemError::NotAnObject);
    }
    let id = match str_member_of(v, "id") {
        Some(s) => s,
        None => return Err(MemoryItemError::MissingId),
    };
    let kind_name = match str_member_of(v, "kind") {
        Some(s) => s,
        None => return Err(MemoryItemError::MissingKind),
    };
    let kind = match memory_kind_from_str(kind_name.as_str()) {
        Some(k) => k,
        None => return Err(MemoryItemError::UnknownKind { kind: kind_name }),
    };
    let namespace = match v.get("namespace") {
        Some(nv) => match parse_namespace_value(nv) {
            Ok(ns) => ns,
            Err(e) => return Err(e),
        },
        None => return Err(MemoryItemError::MissingNamespace),
    };
    let payload = match v.get("payload") {
        Some(p) => p.deep_clone(),
        None => JsonValue::Null,
    };
    let timestamp_ms: i64 = match v.get("timestamp_ms") {
        Some(t) => match t.as_i64() {
            Some(n) => n,
            None => 0,
        },
        None => 0,
    };
    let tags = match v.get("tags") {
        Some(t) => match t.as_array() {
            Some(xs) => strings_of(xs),
            None => Vec::new(),
        },
        None => Vec::new(),
    };
    proof {
        assert(texts_of(Seq::<String>::empty()) =~= Seq::<Seq<char>>::empty());
    }
    Ok(MemoryItem { id, kind, namespace, payload, timestamp_ms, tags })
}

/// A retrieved piece of memory. The score is the number the guest gave,
/// kept as its text; `None` stands for a score of zero.
#[derive(Debug)]
pub struct MemoryChunk {
    pub source_id: String,
    pub text: String,
    pub score: Option<JsonNumber>,
    pub estimated_tokens: u32,
}

pub struct ChunkModel {
    pub source_id: Seq<char>,
    pub text: Seq<char>,
    pub score: Option<Seq<char>>,
    pub estimated_tokens: u32,
}

impl View for MemoryChunk {
    type V = ChunkModel;

    open spec fn view(&self) -> ChunkModel {
        ChunkModel {
            source_id: self.source_id@,
            text: self.text@,
            score: match self.score {
                Some(n) => Some(n@),
                None => None,
            },
            estimated_tokens: self.estimated_tokens,
        }
    }
}

/// The string member `key`, or the empty text.
pub open spec fn str_member_or_empty(v: Json, key: Seq<char>) -> Seq<char> {
    match str_member(v, key) {
        Some(s) => s,
        None => Seq::empty(),
    }
}

/// The member `key` read as a `u64` and cut down to its low 32 bits, or
/// `default`.
pub open spec fn u32_member_or(v: Json, key: Seq<char>, default: u32) -> u32 {
    match v.get(key) {
        Some(x) => match x.as_u64() {
            Some(n) => n as u32,
            None => default,
        },
        None => default,
    }
}

/// The member `key` read as a `u64` and cut down to its low 8 bits, or
/// `default`.
pub open spec fn u8_member_or(v: Json, key: Seq<char>, default: u8) -> u8 {
    match v.get(key) {
        Some(x) => match x.as_u64() {
            Some(n) => n as u8,
            None => default,
        },
        None => default,
    }
}

/// The chunk an object stands for: strings `source_id` and `text` (empty
/// where missing), the number `score`, and `estimated_tokens` (zero where
/// missing).
pub open spec fn chunk_of(x: Json) -> ChunkModel {
    ChunkModel {
        source_id: str_member_or_empty(x, "source_id"@),
        text: str_member_or_empty(x, "text"@),
        score: match x.get("score"@) {
            Some(s) => s.as_number(),
            None => None,
        },
        estimated_tokens: u32_member_or(x, "estimated_tokens"@, 0),
    }
}

/// The number a JSON value holds under `key`, if it holds one there.
pub open spec fn number_member(x: Json, key: Seq<char>) -> Option<Seq<char>> {
    match x.get(key) {
        Some(Json::Number(t)) => Some(t),
        _ => None,
    }
}

/// What the member readers take from a JSON value: a string member as it
/// is (empty where the member is missing or not a string), and an unsigned
/// integer member cut to 32 or 8 bits (the default where the member is
/// missing or not an unsigned integer).
pub proof fn law_member_readers(x: Json, key: Seq<char>, d32: u32, d8: u8)
    ensures
        (x.get(key) matches Some(Json::Str(t)) ==> str_member_or_empty(x, key) == t),
        !(x.get(key) matches Some(Json::Str(_))) ==> str_member_or_empty(x, key).len() == 0,
        number_member(x, key) matches Some(t) ==> (digits_u64_spec(t) is Some ==> u32_member_or(x, key, d32)
            == digits_u64_spec(t)->Some_0 as u32 && u8_member_or(x, key, d8) == digits_u64_spec(t)->Some_0 as u8),
        number_member(x, key) matches Some(t) ==> (digits_u64_spec(t) is None ==> u32_member_or(x, key, d32)
            == d32 && u8_member_or(x, key, d8) == d8),
        number_member(x, key) is None ==> u32_member_or(x, key, d32) == d32 && u8_member_or(x, key, d8) == d8,
{
}

/// A chunk read from an element carries the element's own members: its
/// string `source_id` and `text` (empty where not strings), its number
/// `score` (none where it has no number there) and its `estimated_tokens`
/// (cut to 32 bits, zero where not an unsigned integer).
pub proof fn law_chunk_fields(x: Json)
    ensures
        chunk_of(x).score == number_member(x, "score"@),
        (x.get("source_id"@) matches Some(Json::Str(t)) ==> chunk_of(x).source_id == t),
        (x.get("text"@) matches Some(Json::Str(t)) ==> chunk_of(x).text == t),
        !(x.get("text"@) matches Some(Json::Str(_))) ==> chunk_of(x).text.len() == 0,
        number_member(x, "estimated_tokens"@) matches Some(t) ==> (digits_u64_spec(t) is Some
            ==> chunk_of(x).estimated_tokens == digits_u64_spec(t)->Some_0 as u32),
        x.get("estimated_tokens"@) is None ==> chunk_of(x).estimated_tokens == 0,
{
}

/// The lenient reading keeps exactly the objects with a string `source_id`
/// and a `text` member, each as the chunk its members make, score included.
pub proof fn law_lenient_chunk(x: Json)
    ensures
        lenient_chunk(x) is Some <==> (x is Object && (x.get("source_id"@) matches Some(Json::Str(_)))
            && x.get("text"@) is Some),
        lenient_chunk(x) matches Some(c) ==> c.score == number_member(x, "score"@) && c.source_id
            == str_member(x, "source_id"@)->Some_0 && c.text == str_member_or_empty(x, "text"@)
            && c.estimated_tokens == u32_member_or(x, "estimated_tokens"@, 0),
{
}

/// Where every element reads as a chunk, the lenient reading keeps them
/// all, in order.
pub proof fn law_lenient_chunks_keep_all(xs: Seq<Json>)
    requires
        forall|j: int| 0 <= j < xs.len() ==> (#[trigger] lenient_chunk(xs[j])) is Some,
    ensures
        lenient_chunks(xs).len() == xs.len(),
        forall|j: int| 0 <= j < xs.len() ==> lenient_chunk(xs[j]) == Some(#[trigger] lenient_chunks(xs)[j]),
    decreases xs.len(),
{
    if xs.len() > 0 {
        let ys = xs.drop_last();
        assert forall|j: int| 0 <= j < ys.len() implies (#[trigger] lenient_chunk(ys[j])) is Some by {
            assert(ys[j] == xs[j]);
        }
        law_lenient_chunks_keep_all(ys);
        assert forall|j: int| 0 <= j < xs.len() implies lenient_chunk(xs[j]) == Some(
            #[trigger] lenient_chunks(xs)[j],
        ) by {
            if j < xs.len() - 1 {
                assert(ys[j] == xs[j]);
                assert(lenient_chunks(xs)[j] == lenient_chunks(ys)[j]);
            }
        }
    }
}

fn str_member_or_empty_of(v: &JsonValue, key: &str) -> (r: String)
    ensures
        r@ == str_member_or_empty(v@, key@),
{
    match str_member_of(v, key) {
        Some(s) => s,
        None => String::new(),
    }
}

fn u64_member_of(v: &JsonValue, key: &str) -> (r: Option<u64>)
    ensures
        r == match v@.get(key@) {
            Some(x) => x.as_u64(),
            None => None,
        },
{
    match v.get(key) {
        Some(x) => x.as_u64(),
        None => None,
    }
}

fn chunk_from(x: &JsonValue) -> (r: MemoryChunk)
    ensures
        r@ == chunk_of(x@),
{
    let source_id = str_member_or_empty_of(x, "source_id");
    let text = str_member_or_empty_of(x, "text");
    let score = match x.get("score") {
        Some(s) => match s.as_number() {
            Some(n) => Some(n.copy_number()),
            None => None,
        },
        None => None,
    };
    let estimated_tokens: u32 = match u64_member_of(x, "estimated_tokens") {
        Some(n) => n as u32,
        None => 0,
    };
    MemoryChunk { source_id, text, score, estimated_tokens }
}

/// Why a guest's answer is not a list of the records asked for.
#[derive(Debug)]
pub enum ListShapeError {
    /// The answer is not an array.
    NotAnArray,
    /// The element at `index` is not an object.
    NotAnObject { index: usize },
    /// The element at `index` has no string `id`.
    MissingId { index: usize },
}

/// Whether the first `n` elements of `xs` are all objects.
pub open spec fn objects_up_to(xs: Seq<Json>, n: int) -> bool {
    forall|j: int| 0 <= j < n ==> (#[trigger] xs[j]).is_object()
}

/// Reads a memory strategy's `retrieve` answer: an array of chunk objects.
pub fn decode_chunks(v: &JsonValue) -> (r: Result<Vec<MemoryChunk>, ListShapeError>)
    ensures
        match r {
            Ok(cs) => match v@ {
                Json::Array(xs) => cs@.len() == xs.len() && forall|i: int|
                    0 <= i < xs.len() ==> xs[i].is_object() && (#[trigger] cs@[i])@ == chunk_of(xs[i]),
                _ => false,
            },
            Err(ListShapeError::NotAnArray) => !(v@ is Array),
            Err(ListShapeError::NotAnObject { index }) => match v@ {
                Json::Array(xs) => index < xs.len() && !xs[index as int].is_object() && objects_up_to(
                    xs,
                    index as int,
                ),
                _ => false,
            },
            Err(ListShapeError::MissingId { .. }) => false,
        },
{
    let xs = match v.as_array() {
        Some(xs) => xs,
        None => return Err(ListShapeError::NotAnArray),
    };
    let ghost ms = models_of(xs@);
    proof {
        lemma_models_of(xs@);
    }
    let mut out: Vec<MemoryChunk> = Vec::new();
    let mut i: usize = 0;
    while i < xs.len()
        invariant
            v@ == Json::Array(ms),
            ms == models_of(xs@),
            ms.len() == xs@.len(),
            forall|k: int| 0 <= k < xs@.len() ==> #[trigger] ms[k] == xs@[k]@,
            i <= xs.len(),
            out@.len() == i,
            objects_up_to(ms, i as int),
            forall|k: int| 0 <= k < i ==> (#[trigger] out@[k])@ == chunk_of(ms[k]),
        decreases xs.len() - i,
    {
        if !xs[i].is_object() {
            return Err(ListShapeError::NotAnObject { index: i });
        }
        let c = chunk_from(&xs[i]);
        out.push(c);
        i = i + 1;
    }
    Ok(out)
}

/// The chunk an element stands for where the lenient reading keeps it:
/// an object with a string `source_id` and some `text` member (a text
/// that is not a string reads as empty).
pub open spec fn lenient_chunk(x: Json) -> Option<ChunkModel> {
    if x.is_object() && str_member(x, "source_id"@) is Some && x.get("text"@) is Some {
        Some(chunk_of(x))
    } else {
        None
    }
}

/// The chunks that the lenient reading keeps from `xs`, in order.
pub open spec fn lenient_chunks(xs: Seq<Json>) -> Seq<ChunkModel>
    decreases xs.len(),
{
    if xs.len() == 0 {
        Seq::empty()
    } else {
        let rest = lenient_chunks(xs.drop_last());
        match lenient_chunk(xs.last()) {
            Some(c) => rest.push(c),
            None => rest,
        }
    }
}

pub open spec fn chunk_views(v: Seq<MemoryChunk>) -> Seq<ChunkModel> {
    v.map_values(|c: MemoryChunk| c@)
}

/// Reads a `retrieve` answer leniently: a non-array is no chunks, and
/// elements that do not read as chunks are skipped.
pub fn decode_chunks_lenient(v: &JsonValue) -> (r: Vec<MemoryChunk>)
    ensures
        chunk_views(r@) == match v@ {
            Json::Array(xs) => lenient_chunks(xs),
            _ => Seq::<ChunkModel>::empty(),
        },
{
    let xs = match v.as_array() {
        Some(xs) => xs,
        None => {
            let e: Vec<MemoryChunk> = Vec::new();
            assert(chunk_views(e@) =~= Seq::<ChunkModel>::empty());
            return e;
        },
    };
    let ghost ms = models_of(xs@);
    proof {
        lemma_models_of(xs@);
    }
    let mut out: Vec<MemoryChunk> = Vec::new();
    let mut i: usize = 0;
    assert(chunk_views(out@) =~= lenient_chunks(ms.take(0)));
    while i < xs.len()
        invariant
            v@ == Json::Array(ms),
            ms == models_of(xs@),
            ms.len() == xs@.len(),
            forall|k: int| 0 <= k < xs@.len() ==> #[trigger] ms[k] == xs@[k]@,
            i <= xs.len(),
            chunk_views(out@) == lenient_chunks(ms.take(i as int)),
        decreases xs.len() - i,
    {
        assert(ms.take(i + 1).drop_last() =~= ms.take(i as int));
        let x = &xs[i];
        let keep = x.is_object() && str_member_of(x, "source_id").is_some() && x.get("text").is_some();
        if keep {
            let c = chunk_from(x);
            out.push(c);
            assert(chunk_views(out@) =~= lenient_chunks(ms.take(i as int)).push(c@));
        }
        i = i + 1;
    }
    assert(ms.take(xs.len() as int) =~= ms);
    out
}

/// Calls `chrono::Utc::now().timestamp_millis()`: the current time in
/// milliseconds since the Unix epoch. Nothing is claimed of the value.
#[verifier::external_body]
pub(crate) fn now_millis() -> i64 {
    chrono::Utc::now().timestamp_millis()
}

/// The memory record handed to Python.
#[derive(Debug)]
pub struct PyMemoryItem {
    pub inner: MemoryItem,
}

impl PyMemoryItem {
    /// A record; without a timestamp it is stamped with the current time,
    /// and without tags it has none.
    pub fn new(
        id: String,
        kind: MemoryKind,
        namespace: MemoryNamespace,
        payload: JsonValue,
        timestamp_ms: Option<i64>,
        tags: Option<Vec<String>>,
    ) -> (r: Self)
        ensures
            r.inner.id@ == id@,
            r.inner.kind == kind,
            r.inner.namespace@ == namespace@,
            r.inner.payload@ == payload@,
            timestamp_ms matches Some(t) ==> r.inner.timestamp_ms == t,
            r.inner.tags@ == match tags {
                Some(t) => t@,
                None => Seq::<String>::empty(),
            },
    {
        let ts: i64 = match timestamp_ms {
            Some(t) => t,
            None => now_millis(),
        };
        let tags = match tags {
            Some(t) => t,
            None => Vec::new(),
        };
        PyMemoryItem { inner: MemoryItem { id, kind, namespace, payload, timestamp_ms: ts, tags } }
    }
}

/// The scope name of a namespace.
pub open spec fn scope_name(n: NamespaceModel) -> Seq<char> {
    match n {
        NamespaceModel::Agent(_) => "agent"@,
        NamespaceModel::Team(_) => "team"@,
        NamespaceModel::Org(_) => "org"@,
    }
}

/// The id of a namespace.
pub open spec fn scope_id(n: NamespaceModel) -> Seq<char> {
    match n {
        NamespaceModel::Agent(i) => i,
        NamespaceModel::Team(i) => i,
        NamespaceModel::Org(i) => i,
    }
}

/// The JSON form of a namespace that guests receive: `scope` and `id`.
pub open spec fn namespace_json(n: NamespaceModel) -> Json {
    Json::Object(seq![("scope"@, Json::Str(scope_name(n))), ("id"@, Json::Str(scope_id(n)))])
}

pub open spec fn strs(ts: Seq<Seq<char>>) -> Seq<Json> {
    ts.map_values(|t: Seq<char>| Json::Str(t))
}

/// The JSON form of a memory record that guests receive.
pub open spec fn item_json(i: ItemModel) -> Json {
    Json::Object(
        seq![
            ("id"@, Json::Str(i.id)),
            ("kind"@, Json::Str(memory_kind_name(i.kind))),
            ("namespace"@, namespace_json(i.namespace)),
            ("payload"@, i.payload),
            ("timestamp_ms"@, Json::Number(int_text(i.timestamp_ms as int))),
            ("tags"@, Json::Array(strs(i.tags))),
        ],
    )
}

/// A namespace as guests see it: `{"scope": ..., "id": ...}`.
pub fn namespace_to_json(n: &MemoryNamespace) -> (r: JsonValue)
    ensures
        r@ == namespace_json(n@),
{
    let (scope, id) = match n {
        MemoryNamespace::Agent(i) => ("agent", i.clone()),
        MemoryNamespace::Team(i) => ("team", i.clone()),
        MemoryNamespace::Org(i) => ("org", i.clone()),
    };
    let mut es: Vec<(String, JsonValue)> = Vec::new();
    es.push((String::from_str("scope"), JsonValue::Str(String::from_str(scope))));
    es.push((String::from_str("id"), JsonValue::Str(id)));
    let r = JsonValue::Object(es);
    proof {
        lemma_entry_models_of(es@);
        assert(entry_models_of(es@) =~= namespace_json(n@)->Object_0);
    }
    r
}

/// The JSON form of a memory record, as guests receive it: `id`, `kind`,
/// `namespace` (`scope`, `id`), `payload`, `timestamp_ms` and `tags`.
pub fn memory_item_to_json(item: &MemoryItem) -> (r: JsonValue)
    ensures
        r@ == item_json(item@),
{
    let mut tags: Vec<JsonValue> = Vec::new();
    let mut i: usize = 0;
    while i < item.tags.len()
        invariant
            i <= item.tags@.len(),
            tags@.len() == i,
            forall|j: int| 0 <= j < i ==> (#[trigger] tags@[j])@ == Json::Str(item.tags@[j]@),
        decreases item.tags.len() - i,
    {
        tags.push(JsonValue::Str(item.tags[i].clone()));
        i = i + 1;
    }
    proof {
        lemma_models_of(tags@);
        assert(models_of(tags@) =~= strs(texts_of(item.tags@)));
    }
    let mut es: Vec<(String, JsonValue)> = Vec::new();
    es.push((String::from_str("id"), JsonValue::Str(item.id.clone())));
    es.push((String::from_str("kind"), JsonValue::Str(String::from_str(memory_kind_to_str(item.kind)))));
    es.push((String::from_str("namespace"), namespace_to_json(&item.namespace)));
    es.push((String::from_str("payload"), item.payload.deep_clone()));
    es.push((String::from_str("timestamp_ms"), JsonValue::Number(JsonNumber { text: i64_string(item.timestamp_ms) })));
    es.push((String::from_str("tags"), JsonValue::Array(tags)));
    let r = JsonValue::Object(es);
    proof {
        lemma_entry_models_of(es@);
        assert(entry_models_of(es@) =~= item_json(item@)->Object_0);
    }
    r
}

proof fn lemma_strings_among_strs(ts: Seq<Seq<char>>)
    ensures
        strings_among(strs(ts)) == ts,
    decreases ts.len(),
{
    if ts.len() > 0 {
        assert(strs(ts).drop_last() =~= strs(ts.drop_last()));
        lemma_strings_among_strs(ts.drop_last());
        assert(ts.drop_last().push(ts.last()) =~= ts);
    }
}

/// A memory record written in the JSON form guests receive reads back as
/// the same record.
pub proof fn law_memory_item_round_trip(i: ItemModel)
    ensures
        memory_item_spec(item_json(i)) == Ok::<ItemModel, ItemErrorModel>(i),
{
    reveal_strlit("id");
    reveal_strlit("kind");
    reveal_strlit("namespace");
    reveal_strlit("payload");
    reveal_strlit("timestamp_ms");
    reveal_strlit("tags");
    reveal_strlit("scope");
    reveal_strlit("agent");
    reveal_strlit("team");
    reveal_strlit("org");
    let v = item_json(i);
    let es = v->Object_0;
    let keys = seq!["id"@, "kind"@, "namespace"@, "payload"@, "timestamp_ms"@, "tags"@];
    assert("tags"@[0] != "kind"@[0]);
    assert forall|a: int, b: int| 0 <= a < b < 6 implies keys[a] != keys[b] by {
        if a == 1 && b == 5 {
            assert(keys[a][0] != keys[b][0]);
        } else {
            assert(keys[a].len() != keys[b].len());
        }
    }
    assert(first_key_at(es, "id"@, 0));
    lemma_entries_get_at(es, "id"@, 0);
    assert(first_key_at(es, "kind"@, 1));
    lemma_entries_get_at(es, "kind"@, 1);
    assert(first_key_at(es, "namespace"@, 2));
    lemma_entries_get_at(es, "namespace"@, 2);
    assert(first_key_at(es, "payload"@, 3));
    lemma_entries_get_at(es, "payload"@, 3);
    assert(first_key_at(es, "timestamp_ms"@, 4));
    lemma_entries_get_at(es, "timestamp_ms"@, 4);
    assert(first_key_at(es, "tags"@, 5));
    lemma_entries_get_at(es, "tags"@, 5);
    law_memory_kind_name_round_trip(i.kind);
    law_i64_text_round_trip(i.timestamp_ms);
    lemma_strings_among_strs(i.tags);
    let n = namespace_json(i.namespace);
    let ns = n->Object_0;
    assert("scope"@.len() != "id"@.len());
    assert(first_key_at(ns, "scope"@, 0));
    lemma_entries_get_at(ns, "scope"@, 0);
    assert(first_key_at(ns, "id"@, 1));
    lemma_entries_get_at(ns, "id"@, 1);
    assert("team"@.len() != "agent"@.len());
    assert("org"@.len() != "agent"@.len());
    assert("org"@.len() != "team"@.len());
}

} // verus!

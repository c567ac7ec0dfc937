//! Skills and skill references: how a guest skill strategy's answer is
//! read, and how trigger keywords given by skill name are merged in.

use vstd::prelude::*;

use crate::json::{lemma_models_of, models_of, Json, JsonValue};
use crate::memory::{
    str_member, str_member_or_empty, texts_of, u8_member_or, ListShapeError,
    MemoryNamespace, NamespaceModel,
};
use crate::text::str_eq;
use crate::version::{parse_version, semver_parse, SemVersion, VersionError};

verus! {

/// A skill named as applicable by a skill strategy.
#[derive(Debug)]
pub struct SkillRef {
    pub id: String,
    pub name: String,
    pub priority: u8,
}

pub struct SkillRefModel {
    pub id: Seq<char>,
    pub name: Seq<char>,
    pub priority: u8,
}

impl View for SkillRef {
    type V = SkillRefModel;

    open spec fn view(&self) -> SkillRefModel {
        SkillRefModel { id: self.id@, name: self.name@, priority: self.priority }
    }
}

/// The skill reference an object with a string `id` stands for: `name`
/// is empty where missing, and `priority` is read as a `u64` cut down to
/// 8 bits, `default_priority` where missing.
pub open spec fn skill_ref_of(x: Json, id: Seq<char>, default_priority: u8) -> SkillRefModel {
    SkillRefModel {
        id,
        name: str_member_or_empty(x, "name"@),
        priority: u8_member_or(x, "priority"@, default_priority),
    }
}

/// A skill reference read from an element carries the given id, the
/// element's string `name` (empty where missing) and its `priority` cut to
/// 8 bits, with the reading's default where the element has none.
pub proof fn law_skill_ref_fields(x: Json, id: Seq<char>, default_priority: u8)
    ensures
        skill_ref_of(x, id, default_priority).id == id,
        (x.get("name"@) matches Some(Json::Str(t)) ==> skill_ref_of(x, id, default_priority).name == t),
        !(x.get("name"@) matches Some(Json::Str(_))) ==> skill_ref_of(x, id, default_priority).name.len() == 0,
        x.get("priority"@) is None ==> skill_ref_of(x, id, default_priority).priority == default_priority,
        (x.get("priority"@) matches Some(p) ==> (p.as_u64() matches Some(n) ==> skill_ref_of(
            x,
            id,
            default_priority,
        ).priority == n as u8)),
{
}

/// The priority a strict reading gives a skill reference without one.
pub const DEFAULT_SKILL_PRIORITY: u8 = 5;

fn skill_ref_from(x: &JsonValue, id: String, default_priority: u8) -> (r: SkillRef)
    ensures
        r@ == skill_ref_of(x@, id@, default_priority),
{
    let name = match x.get("name") {
        Some(n) => match n.as_str() {
            Some(s) => s.clone(),
            None => String::new(),
        },
        None => String::new(),
    };
    let priority: u8 = match x.get("priority") {
        Some(p) => match p.as_u64() {
            Some(n) => n as u8,
            None => default_priority,
        },
        None => default_priority,
    };
    SkillRef { id, name, priority }
}

fn id_of(x: &JsonValue) -> (r: Option<String>)
    ensures
        match r {
            Some(s) => str_member(x@, "id"@) == Some(s@),
            None => str_member(x@, "id"@) is None,
        },
{
    match x.get("id") {
        Some(i) => match i.as_str() {
            Some(s) => Some(s.clone()),
            None => None,
        },
        None => None,
    }
}

/// Reads a skill strategy's `applicable` answer: an array of objects,
/// each with a string `id`.
pub fn decode_skill_refs(v: &JsonValue) -> (r: Result<Vec<SkillRef>, ListShapeError>)
    ensures
        match r {
            Ok(refs) => match v@ {
                Json::Array(xs) => refs@.len() == xs.len() && forall|i: int|
                    0 <= i < xs.len() ==> xs[i].is_object() && str_member(xs[i], "id"@) is Some
                        && (#[trigger] refs@[i])@ == skill_ref_of(
                        xs[i],
                        str_member(xs[i], "id"@)->0,
                        DEFAULT_SKILL_PRIORITY,
                    ),
                _ => false,
            },
            Err(ListShapeError::NotAnArray) => !(v@ is Array),
            Err(ListShapeError::NotAnObject { index }) => match v@ {
                Json::Array(xs) => index < xs.len() && !xs[index as int].is_object() && forall|j: int|
                    0 <= j < index ==> (#[trigger] xs[j]).is_object() && str_member(xs[j], "id"@) is Some,
                _ => false,
            },
            Err(ListShapeError::MissingId { index }) => match v@ {
                Json::Array(xs) => index < xs.len() && xs[index as int].is_object() && str_member(
                    xs[index as int],
                    "id"@,
                ) is None && forall|j: int|
                    0 <= j < index ==> (#[trigger] xs[j]).is_object() && str_member(xs[j], "id"@) is Some,
                _ => false,
            },
        },
{
    let xs = match v.as_array() {
        Some(xs) => xs,
        None => return Err(ListShapeError::NotAnArray),
    };
    let ghost ms = models_of(xs@);
    proof {
        lemma_models_of(xs@);
    }
    let mut out: Vec<SkillRef> = Vec::new();
    let mut i: usize = 0;
    while i < xs.len()
        invariant
            v@ == Json::Array(ms),
            ms == models_of(xs@),
            ms.len() == xs@.len(),
            forall|k: int| 0 <= k < xs@.len() ==> #[trigger] ms[k] == xs@[k]@,
            i <= xs.len(),
            out@.len() == i,
            forall|j: int| 0 <= j < i ==> (#[trigger] ms[j]).is_object() && str_member(ms[j], "id"@) is Some,
            forall|k: int|
                0 <= k < i ==> (#[trigger] out@[k])@ == skill_ref_of(
                    ms[k],
                    str_member(ms[k], "id"@)->0,
                    DEFAULT_SKILL_PRIORITY,
                ),
        decreases xs.len() - i,
    {
        if !xs[i].is_object() {
            return Err(ListShapeError::NotAnObject { index: i });
        }
        let id = match id_of(&xs[i]) {
            Some(s) => s,
            None => return Err(ListShapeError::MissingId { index: i }),
        };
        let r = skill_ref_from(&xs[i], id, DEFAULT_SKILL_PRIORITY);
        out.push(r);
        i = i + 1;
    }
    Ok(out)
}

/// The reference the lenient reading takes from an element: objects with
/// a string `id`, priority zero where missing.
pub open spec fn lenient_skill_ref(x: Json) -> Option<SkillRefModel> {
    if x.is_object() && str_member(x, "id"@) is Some {
        Some(skill_ref_of(x, str_member(x, "id"@)->0, 0))
    } else {
        None
    }
}

pub open spec fn lenient_skill_refs(xs: Seq<Json>) -> Seq<SkillRefModel>
    decreases xs.len(),
{
    if xs.len() == 0 {
        Seq::empty()
    } else {
        let rest = lenient_skill_refs(xs.drop_last());
        match lenient_skill_ref(xs.last()) {
            Some(c) => rest.push(c),
            None => rest,
        }
    }
}

pub open spec fn skill_ref_views(v: Seq<SkillRef>) -> Seq<SkillRefModel> {
    v.map_values(|r: SkillRef| r@)
}

/// The strict reading gives a reference without a priority the priority
/// 5, the lenient reading the priority 0; the lenient reading keeps exactly
/// the objects with a string `id`, under that id.
pub proof fn law_skill_priority_defaults(x: Json)
    ensures
        DEFAULT_SKILL_PRIORITY == 5,
        lenient_skill_ref(x) is Some <==> (x is Object && (x.get("id"@) matches Some(Json::Str(_)))),
        (lenient_skill_ref(x) matches Some(r) ==> x.get("id"@) == Some(Json::Str(r.id)) && (x.get("priority"@)
            is None ==> r.priority == 0)),
{
}

/// Reads an `applicable` answer leniently: a non-array is no references,
/// and elements without a string `id` are skipped.
pub fn decode_skill_refs_lenient(v: &JsonValue) -> (r: Vec<SkillRef>)
    ensures
        skill_ref_views(r@) == match v@ {
            Json::Array(xs) => lenient_skill_refs(xs),
            _ => Seq::<SkillRefModel>::empty(),
        },
{
    let xs = match v.as_array() {
        Some(xs) => xs,
        None => {
            let e: Vec<SkillRef> = Vec::new();
            assert(skill_ref_views(e@) =~= Seq::<SkillRefModel>::empty());
            return e;
        },
    };
    let ghost ms = models_of(xs@);
    proof {
        lemma_models_of(xs@);
    }
    let mut out: Vec<SkillRef> = Vec::new();
    let mut i: usize = 0;
    assert(skill_ref_views(out@) =~= lenient_skill_refs(ms.take(0)));
    while i < xs.len()
        invariant
            v@ == Json::Array(ms),
            ms == models_of(xs@),
            ms.len() == xs@.len(),
            forall|k: int| 0 <= k < xs@.len() ==> #[trigger] ms[k] == xs@[k]@,
            i <= xs.len(),
            skill_ref_views(out@) == lenient_skill_refs(ms.take(i as int)),
        decreases xs.len() - i,
    {
        assert(ms.take(i + 1).drop_last() =~= ms.take(i as int));
        let x = &xs[i];
        if x.is_object() {
            match id_of(x) {
                Some(id) => {
                    let r = skill_ref_from(x, id, 0);
                    out.push(r);
                    assert(skill_ref_views(out@) =~= lenient_skill_refs(ms.take(i as int)).push(r@));
                },
                None => {},
            }
        }
        i = i + 1;
    }
    assert(ms.take(xs.len() as int) =~= ms);
    out
}

/// A copy of a list of texts.
pub fn copy_texts(v: &Vec<String>) -> (r: Vec<String>)
    ensures
        texts_of(r@) == texts_of(v@),
{
    let mut out: Vec<String> = Vec::new();
    let mut i: usize = 0;
    while i < v.len()
        invariant
            i <= v.len(),
            out@.len() == i,
            forall|k: int| 0 <= k < i ==> (#[trigger] out@[k])@ == v@[k]@,
        decreases v.len() - i,
    {
        out.push(v[i].clone());
        i = i + 1;
    }
    assert(texts_of(out@) =~= texts_of(v@));
    out
}

/// A skill: an instruction fragment with the tools, memory namespace and
/// trigger keywords that come with it.
#[derive(Debug)]
pub struct Skill {
    pub id: String,
    pub name: String,
    pub instruction_fragment: String,
    pub tool_overlay: Vec<String>,
    pub memory_namespace: Option<MemoryNamespace>,
    pub keywords: Vec<String>,
    pub priority: u8,
}

pub struct SkillModel {
    pub id: Seq<char>,
    pub name: Seq<char>,
    pub instruction_fragment: Seq<char>,
    pub tool_overlay: Seq<Seq<char>>,
    pub memory_namespace: Option<NamespaceModel>,
    pub keywords: Seq<Seq<char>>,
    pub priority: u8,
}

impl View for Skill {
    type V = SkillModel;

    open spec fn view(&self) -> SkillModel {
        SkillModel {
            id: self.id@,
            name: self.name@,
            instruction_fragment: self.instruction_fragment@,
            tool_overlay: texts_of(self.tool_overlay@),
            memory_namespace: match self.memory_namespace {
                Some(n) => Some(n@),
                None => None,
            },
            keywords: texts_of(self.keywords@),
            priority: self.priority,
        }
    }
}

/// The skill handed to Python.
#[derive(Debug)]
pub struct PySkill {
    pub inner: Skill,
}

impl PySkill {
    /// A skill; a missing tool overlay or keyword list is empty.
    pub fn new(
        id: String,
        name: String,
        instruction_fragment: String,
        tool_overlay: Option<Vec<String>>,
        memory_namespace: Option<MemoryNamespace>,
        keywords: Option<Vec<String>>,
        priority: u8,
    ) -> (r: Self)
        ensures
            r.inner.id@ == id@,
            r.inner.name@ == name@,
            r.inner.instruction_fragment@ == instruction_fragment@,
            r.inner.tool_overlay@ == match tool_overlay {
                Some(t) => t@,
                None => Seq::<String>::empty(),
            },
            r.inner.memory_namespace == memory_namespace,
            r.inner.keywords@ == match keywords {
                Some(k) => k@,
                None => Seq::<String>::empty(),
            },
            r.inner.priority == priority,
    {
        let tool_overlay = match tool_overlay {
            Some(t) => t,
            None => Vec::new(),
        };
        let keywords = match keywords {
            Some(k) => k,
            None => Vec::new(),
        };
        PySkill {
            inner: Skill {
                id,
                name,
                instruction_fragment,
                tool_overlay,
                memory_namespace,
                keywords,
                priority,
            },
        }
    }
}

/// Whether `i` is the first entry of `es` under `key`.
pub open spec fn first_entry_at(es: Seq<(String, Vec<String>)>, key: Seq<char>, i: int) -> bool {
    &&& 0 <= i < es.len()
    &&& es[i].0@ == key
    &&& forall|j: int| 0 <= j < i ==> (#[trigger] es[j]).0@ != key
}

/// The trigger words given for the skill named `name`, if any (the first
/// entry under that name).
pub open spec fn words_for(es: Seq<(String, Vec<String>)>, name: Seq<char>) -> Option<Seq<Seq<char>>> {
    if exists|i: int| first_entry_at(es, name, i) {
        Some(texts_of(es[choose|i: int| first_entry_at(es, name, i)].1@))
    } else {
        None
    }
}

fn find_words(es: &Vec<(String, Vec<String>)>, name: &str) -> (r: Option<Vec<String>>)
    ensures
        match r {
            Some(w) => words_for(es@, name@) == Some(texts_of(w@)),
            None => words_for(es@, name@) is None,
        },
{
    let mut i: usize = 0;
    while i < es.len()
        invariant
            i <= es.len(),
            forall|j: int| 0 <= j < i ==> (#[trigger] es@[j]).0@ != name@,
        decreases es.len() - i,
    {
        if str_eq(es[i].0.as_str(), name) {
            proof {
                assert(first_entry_at(es@, name@, i as int));
                let c = choose|c: int| first_entry_at(es@, name@, c);
                if c < i {
                    assert(es@[c].0@ != name@);
                } else if c > i {
                    assert(es@[i as int].0@ != name@);
                }
            }
            return Some(copy_texts(&es[i].1));
        }
        i = i + 1;
    }
    None
}

/// The skills a keyword skill strategy works with: each skill whose name
/// has an entry in `keywords` takes that entry's words in place of its
/// own; the others keep theirs.
pub fn merge_keywords(skills: Vec<Skill>, keywords: &Vec<(String, Vec<String>)>) -> (r: Vec<Skill>)
    ensures
        r@.len() == skills@.len(),
        forall|i: int|
            0 <= i < skills@.len() ==> {
                let (a, b) = ((#[trigger] r@[i])@, skills@[i]@);
                &&& a.id == b.id
                &&& a.name == b.name
                &&& a.instruction_fragment == b.instruction_fragment
                &&& a.tool_overlay == b.tool_overlay
                &&& a.memory_namespace == b.memory_namespace
                &&& a.priority == b.priority
                &&& a.keywords == match words_for(keywords@, b.name) {
                    Some(w) => w,
                    None => b.keywords,
                }
            },
{
    let mut out = skills;
    let ghost orig = out@;
    let mut i: usize = 0;
    while i < out.len()
        invariant
            i <= out.len(),
            out@.len() == orig.len(),
            forall|k: int| i <= k < orig.len() ==> #[trigger] out@[k] == orig[k],
            forall|k: int|
                0 <= k < i ==> {
                    let (a, b) = ((#[trigger] out@[k])@, orig[k]@);
                    &&& a.id == b.id
                    &&& a.name == b.name
                    &&& a.instruction_fragment == b.instruction_fragment
                    &&& a.tool_overlay == b.tool_overlay
                    &&& a.memory_namespace == b.memory_namespace
                    &&& a.priority == b.priority
                    &&& a.keywords == match words_for(keywords@, b.name) {
                        Some(w) => w,
                        None => b.keywords,
                    }
                },
        decreases orig.len() - i,
    {
        let found = find_words(keywords, out[i].name.as_str());
        match found {
            Some(words) => {
                let mut s = out.remove(i);
                s.keywords = words;
                out.insert(i, s);
            },
            None => {},
        }
        i = i + 1;
    }
    out
}

/// A versioned set of skills.
#[derive(Debug)]
pub struct PySkillSet {
    pub id: String,
    pub version: SemVersion,
    pub skills: Vec<Skill>,
}

impl PySkillSet {
    /// A skill set; the version must be a semantic version.
    pub fn new(id: String, version: &str, skills: Vec<Skill>) -> (r: Result<Self, VersionError>)
        ensures
            match r {
                Ok(s) => semver_parse(version@) == Some(s.version@) && s.id@ == id@ && s.skills@ == skills@,
                Err(_) => semver_parse(version@) is None,
            },
    {
        match parse_version(version) {
            Ok(v) => Ok(PySkillSet { id, version: v, skills }),
            Err(e) => Err(e),
        }
    }

    /// The number of skills.
    pub fn len(&self) -> (r: usize)
        ensures
            r == self.skills@.len(),
    {
        self.skills.len()
    }
}

} // verus!

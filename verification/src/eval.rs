//! Evaluation values: the choice and verdict names, and how a guest
//! scorer's answer becomes a scorer outcome.

use vstd::prelude::*;
use vstd::string::StringExecFns;

use crate::json::{lemma_models_of, Json, JsonNumber, JsonValue};
use crate::text::str_eq;

verus! {

/// A name that a table of names does not hold.
#[derive(Debug)]
pub struct UnknownName {
    pub name: String,
}

/// The winner of a pairwise comparison: `a`, `b` or `tie`.
#[derive(Debug)]
pub struct PyPairwiseChoice {
    inner: String,
}

pub open spec fn is_pairwise_choice(s: Seq<char>) -> bool {
    s == "a"@ || s == "b"@ || s == "tie"@
}

impl PyPairwiseChoice {
    pub closed spec fn spec_name(&self) -> Seq<char> {
        self.inner@
    }

    pub fn new(name: &str) -> (r: Result<Self, UnknownName>)
        ensures
            match r {
                Ok(c) => is_pairwise_choice(name@) && c.spec_name() == name@,
                Err(e) => !is_pairwise_choice(name@) && e.name@ == name@,
            },
    {
        if str_eq(name, "a") || str_eq(name, "b") || str_eq(name, "tie") {
            Ok(PyPairwiseChoice { inner: String::from_str(name) })
        } else {
            Err(UnknownName { name: String::from_str(name) })
        }
    }

    pub fn name(&self) -> (r: &str)
        ensures
            r@ == self.spec_name(),
    {
        self.inner.as_str()
    }

    pub fn a() -> (r: Self)
        ensures
            r.spec_name() == "a"@,
    {
        PyPairwiseChoice { inner: String::from_str("a") }
    }

    pub fn b() -> (r: Self)
        ensures
            r.spec_name() == "b"@,
    {
        PyPairwiseChoice { inner: String::from_str("b") }
    }

    pub fn tie() -> (r: Self)
        ensures
            r.spec_name() == "tie"@,
    {
        PyPairwiseChoice { inner: String::from_str("tie") }
    }
}

/// A verdict on a piece of work: `approved`, `rejected` or `needs_review`.
#[derive(Debug)]
pub struct PyVerdict {
    inner: String,
}

pub open spec fn is_verdict(s: Seq<char>) -> bool {
    s == "approved"@ || s == "rejected"@ || s == "needs_review"@
}

impl PyVerdict {
    pub closed spec fn spec_name(&self) -> Seq<char> {
        self.inner@
    }

    pub fn new(name: &str) -> (r: Result<Self, UnknownName>)
        ensures
            match r {
                Ok(c) => is_verdict(name@) && c.spec_name() == name@,
                Err(e) => !is_verdict(name@) && e.name@ == name@,
            },
    {
        if str_eq(name, "approved") || str_eq(name, "rejected") || str_eq(name, "needs_review") {
            Ok(PyVerdict { inner: String::from_str(name) })
        } else {
            Err(UnknownName { name: String::from_str(name) })
        }
    }

    pub fn name(&self) -> (r: &str)
        ensures
            r@ == self.spec_name(),
    {
        self.inner.as_str()
    }
}

/// What a scorer concluded of one case. The score is a number kept as its
/// text.
#[derive(Debug)]
pub struct ScorerOutcome {
    pub passed: bool,
    pub score: JsonNumber,
    pub note: String,
}

pub struct OutcomeModel {
    pub passed: bool,
    pub score: Seq<char>,
    pub note: Seq<char>,
}

impl View for ScorerOutcome {
    type V = OutcomeModel;

    open spec fn view(&self) -> OutcomeModel {
        OutcomeModel { passed: self.passed, score: self.score@, note: self.note@ }
    }
}

/// How a scorer outcome reads from JSON: an object with a boolean
/// `passed`, a number `score` and a string `note`, or the array
/// `[passed, score, note]`.
pub open spec fn scorer_outcome_spec(v: Json) -> Option<OutcomeModel> {
    match v {
        Json::Object(_) => match (v.get("passed"@), v.get("score"@), v.get("note"@)) {
            (Some(Json::Bool(p)), Some(Json::Number(s)), Some(Json::Str(n))) => Some(
                OutcomeModel { passed: p, score: s, note: n },
            ),
            _ => None,
        },
        Json::Array(xs) => if xs.len() == 3 {
            match (xs[0], xs[1], xs[2]) {
                (Json::Bool(p), Json::Number(s), Json::Str(n)) => Some(
                    OutcomeModel { passed: p, score: s, note: n },
                ),
                _ => None,
            }
        } else {
            None
        },
        _ => None,
    }
}

/// A scorer's answer reads as an outcome exactly when it is an object with
/// a boolean `passed`, a number `score` and a string `note`, or the array
/// `[passed, score, note]` of those; the outcome carries those three.
pub proof fn law_scorer_outcome(v: Json)
    ensures
        v is Object ==> (scorer_outcome_spec(v) is Some <==> (v.get("passed"@) matches Some(Json::Bool(_))
            && (v.get("score"@) matches Some(Json::Number(_))) && (v.get("note"@) matches Some(
            Json::Str(_),
        )))),
        v is Object ==> (scorer_outcome_spec(v) matches Some(o) ==> v.get("passed"@) == Some(
            Json::Bool(o.passed),
        ) && v.get("score"@) == Some(Json::Number(o.score)) && v.get("note"@) == Some(Json::Str(o.note))),
        (v matches Json::Array(xs) ==> (scorer_outcome_spec(v) matches Some(o) ==> xs.len() == 3 && xs[0]
            == Json::Bool(o.passed) && xs[1] == Json::Number(o.score) && xs[2] == Json::Str(o.note))),
        (v matches Json::Array(xs) ==> (xs.len() != 3 ==> scorer_outcome_spec(v) is None)),
        !(v is Object) && !(v is Array) ==> scorer_outcome_spec(v) is None,
{
}

fn outcome_parts(p: &JsonValue, s: &JsonValue, n: &JsonValue) -> (r: Option<ScorerOutcome>)
    ensures
        match r {
            Some(o) => p@.as_bool() == Some(o.passed) && s@.as_number() == Some(o.score@)
                && n@.as_str() == Some(o.note@),
            None => p@.as_bool() is None || s@.as_number() is None || n@.as_str() is None,
        },
{
    match (p.as_bool(), s.as_number(), n.as_str()) {
        (Some(passed), Some(score), Some(note)) => Some(
            ScorerOutcome { passed, score: score.copy_number(), note: note.clone() },
        ),
        _ => None,
    }
}

/// Reads a scorer outcome from JSON.
pub fn decode_scorer_outcome(v: &JsonValue) -> (r: Option<ScorerOutcome>)
    ensures
        match r {
            Some(o) => scorer_outcome_spec(v@) == Some(o@),
            None => scorer_outcome_spec(v@) is None,
        },
{
    match v {
        JsonValue::Object(_) => match (v.get("passed"), v.get("score"), v.get("note")) {
            (Some(p), Some(s), Some(n)) => outcome_parts(p, s, n),
            _ => None,
        },
        JsonValue::Array(xs) => {
            proof {
                lemma_models_of(xs@);
            }
            if xs.len() == 3 {
                outcome_parts(&xs[0], &xs[1], &xs[2])
            } else {
                None
            }
        },
        _ => None,
    }
}

/// The note of a scorer that failed at `stage`.
pub open spec fn failure_note(label: Seq<char>, stage: Seq<char>, message: Seq<char>) -> Seq<char> {
    "guest scorer "@ + label + " "@ + stage + ": "@ + message
}

/// What a guest scorer produced for one case.
pub enum ScoreReply {
    /// The call failed at `stage` (`call`, `coroutine check`, `await`,
    /// `result`) with this message.
    Failed { stage: String, message: String },
    /// A scorer-outcome object.
    Outcome(ScorerOutcome),
    /// Any other answer, as JSON.
    Value(JsonValue),
}

/// A guest scorer registered under a key.
pub struct PyAsyncScorerAdapter<T> {
    pub target: T,
    pub label: String,
}

impl<T> PyAsyncScorerAdapter<T> {
    pub fn new(target: T, label: String) -> (r: Self)
        ensures
            r.target == target,
            r.label@ == label@,
    {
        PyAsyncScorerAdapter { target, label }
    }

    /// The outcome of one scoring, from what the guest produced: a
    /// failure at some stage, an outcome object, or a JSON answer that
    /// must read as an outcome.
    pub fn conclude(&self, reply: ScoreReply) -> (r: ScorerOutcome)
        ensures
            match reply {
                ScoreReply::Failed { stage, message } => !r.passed && r.score@ == "0"@ && r.note@
                    == failure_note(self.label@, stage@, message@),
                ScoreReply::Outcome(o) => r@ == o@,
                ScoreReply::Value(v) => match scorer_outcome_spec(v@) {
                    Some(o) => r@ == o,
                    None => !r.passed && r.score@ == "0"@ && r.note@ == failure_note(
                        self.label@,
                        "result"@,
                        "ScorerOutcome deserialize: expected {passed, score, note}"@,
                    ),
                },
            },
    {
        match reply {
            ScoreReply::Failed { stage, message } => self.fail(stage.as_str(), message.as_str()),
            ScoreReply::Outcome(o) => o,
            ScoreReply::Value(v) => match decode_scorer_outcome(&v) {
                Some(o) => o,
                None => self.fail("result", "ScorerOutcome deserialize: expected {passed, score, note}"),
            },
        }
    }

    /// The outcome of a scoring that failed at `stage`: not passed, score
    /// zero, and a note naming the scorer, the stage and the cause.
    pub fn fail(&self, stage: &str, message: &str) -> (r: ScorerOutcome)
        ensures
            !r.passed,
            r.score@ == "0"@,
            r.note@ == failure_note(self.label@, stage@, message@),
    {
        let mut note = String::from_str("guest scorer ");
        note.append(self.label.as_str());
        note.append(" ");
        note.append(stage);
        note.append(": ");
        note.append(message);
        ScorerOutcome { passed: false, score: JsonNumber { text: String::from_str("0") }, note }
    }
}

} // verus!

//! Decisions of the harness loop that a Python guest drives: how a step
//! result and a termination answer are read, and which termination a
//! harness runs with.

use vstd::prelude::*;
use vstd::string::StringExecFns;

use crate::json::{first_key_at, lemma_entries_get_at, lemma_entries_get_none, lemma_models_of, Json, JsonValue};
use crate::guest::GuestRegistry;
use crate::version::{parse_version, semver_parse, SemVersion, VersionError};
use crate::text::{decimal_text, opt_text, eq_lowered, law_decimal_round_trip, lower_matches, lowered, parse_u64, parse_u64_spec, str_eq, to_ascii_lower};

verus! {

/// What one step of a loop strategy decided.
#[derive(Debug)]
pub enum StepOutcome {
    /// Keep looping with this working memory.
    Continue { working_memory: JsonValue, label: String },
    /// Stop with this output.
    Done { output: JsonValue, label: String },
}

/// Mathematical model of a step outcome.
pub enum StepModel {
    Continue { working_memory: Json, label: Seq<char> },
    Done { output: Json, label: Seq<char> },
}

impl View for StepOutcome {
    type V = StepModel;

    open spec fn view(&self) -> StepModel {
        match self {
            StepOutcome::Continue { working_memory, label } => StepModel::Continue {
                working_memory: working_memory@,
                label: label@,
            },
            StepOutcome::Done { output, label } => StepModel::Done { output: output@, label: label@ },
        }
    }
}

/// Why a guest's step result is not a step outcome.
#[derive(Debug)]
pub enum StepDecodeError {
    /// The result carried a `kind` that is neither `continue` nor `done`
    /// (given here lower-cased).
    UnknownKind { kind: String },
    /// The result has neither the `kind`-tagged shape nor the
    /// variant-tagged one.
    Malformed,
}

pub enum StepErrorModel {
    UnknownKind(Seq<char>),
    Malformed,
}

impl View for StepDecodeError {
    type V = StepErrorModel;

    open spec fn view(&self) -> StepErrorModel {
        match self {
            StepDecodeError::UnknownKind { kind } => StepErrorModel::UnknownKind(kind@),
            StepDecodeError::Malformed => StepErrorModel::Malformed,
        }
    }
}

/// Member `key` of `v`, or JSON `null` where there is none.
pub open spec fn member_or_null(v: Json, key: Seq<char>) -> Json {
    match v.get(key) {
        Some(x) => x,
        None => Json::Null,
    }
}

/// The `label` member of `v` when it is a string, else `default`.
pub open spec fn label_or(v: Json, default: Seq<char>) -> Seq<char> {
    match v.get("label"@) {
        Some(Json::Str(l)) => l,
        _ => default,
    }
}

/// The body of a variant-tagged step: an object with the member `field`
/// and a string `label`, or a two-element array `[value, label]`.
pub open spec fn variant_body(b: Json, field: Seq<char>) -> Option<(Json, Seq<char>)> {
    match b {
        Json::Object(_) => match (b.get(field), b.get("label"@)) {
            (Some(x), Some(Json::Str(l))) => Some((x, l)),
            _ => None,
        },
        Json::Array(xs) => if xs.len() == 2 {
            match xs[1] {
                Json::Str(l) => Some((xs[0], l)),
                _ => None,
            }
        } else {
            None
        },
        _ => None,
    }
}

/// The variant-tagged form: an object with the single member `Continue`
/// or `Done` around the variant's body.
pub open spec fn decode_tagged_step(v: Json) -> Result<StepModel, StepErrorModel> {
    match v {
        Json::Object(es) => if es.len() == 1 && es[0].0 == "Continue"@ {
            match variant_body(es[0].1, "working_memory"@) {
                Some((x, l)) => Ok(StepModel::Continue { working_memory: x, label: l }),
                None => Err(StepErrorModel::Malformed),
            }
        } else if es.len() == 1 && es[0].0 == "Done"@ {
            match variant_body(es[0].1, "output"@) {
                Some((x, l)) => Ok(StepModel::Done { output: x, label: l }),
                None => Err(StepErrorModel::Malformed),
            }
        } else {
            Err(StepErrorModel::Malformed)
        },
        _ => Err(StepErrorModel::Malformed),
    }
}

/// How a guest's step result reads: an object whose `kind` is a string
/// is read by that kind, compared without regard to ASCII case (a missing
/// `working_memory` or `output` is `null`, a missing label is `step`);
/// anything else must have the variant-tagged form.
pub open spec fn decode_step(v: Json) -> Result<StepModel, StepErrorModel> {
    match v.get("kind"@) {
        Some(Json::Str(k)) => if lower_matches(k, "continue"@) {
            Ok(
                StepModel::Continue {
                    working_memory: member_or_null(v, "working_memory"@),
                    label: label_or(v, "step"@),
                },
            )
        } else if lower_matches(k, "done"@) {
            Ok(StepModel::Done { output: member_or_null(v, "output"@), label: label_or(v, "step"@) })
        } else {
            Err(StepErrorModel::UnknownKind(lowered(k)))
        },
        _ => decode_tagged_step(v),
    }
}

/// Member `key` of `v`, copied, or `null`.
fn member_or_null_of(v: &JsonValue, key: &str) -> (r: JsonValue)
    ensures
        r@ == member_or_null(v@, key@),
{
    match v.get(key) {
        Some(x) => x.deep_clone(),
        None => JsonValue::Null,
    }
}

/// The string member `label` of `v`, or `default`.
fn label_of(v: &JsonValue, default: &str) -> (r: String)
    ensures
        r@ == label_or(v@, default@),
{
    match v.get("label") {
        Some(l) => match l.as_str() {
            Some(s) => s.clone(),
            None => String::from_str(default),
        },
        None => String::from_str(default),
    }
}

fn decode_variant_body(b: &JsonValue, field: &str) -> (r: Option<(JsonValue, String)>)
    ensures
        match r {
            Some((x, l)) => variant_body(b@, field@) == Some((x@, l@)),
            None => variant_body(b@, field@) is None,
        },
{
    if b.is_object() {
        match b.get(field) {
            Some(x) => match b.get("label") {
                Some(l) => match l.as_str() {
                    Some(s) => Some((x.deep_clone(), s.clone())),
                    None => None,
                },
                None => None,
            },
            None => None,
        }
    } else {
        match b.as_array() {
            Some(xs) => {
                proof {
                    lemma_models_of(xs@);
                }
                if xs.len() == 2 {
                    match xs[1].as_str() {
                        Some(s) => Some((xs[0].deep_clone(), s.clone())),
                        None => None,
                    }
                } else {
                    None
                }
            },
            None => None,
        }
    }
}

fn decode_tagged(v: &JsonValue) -> (r: Result<StepOutcome, StepDecodeError>)
    ensures
        match r {
            Ok(o) => decode_tagged_step(v@) == Ok::<StepModel, StepErrorModel>(o@),
            Err(e) => decode_tagged_step(v@) == Err::<StepModel, StepErrorModel>(e@),
        },
{
    match v {
        JsonValue::Object(es) => {
            proof {
                crate::json::lemma_entry_models_of(es@);
            }
            if es.len() != 1 {
                return Err(StepDecodeError::Malformed);
            }
            if str_eq(es[0].0.as_str(), "Continue") {
                match decode_variant_body(&es[0].1, "working_memory") {
                    Some((x, l)) => Ok(StepOutcome::Continue { working_memory: x, label: l }),
                    None => Err(StepDecodeError::Malformed),
                }
            } else if str_eq(es[0].0.as_str(), "Done") {
                match decode_variant_body(&es[0].1, "output") {
                    Some((x, l)) => Ok(StepOutcome::Done { output: x, label: l }),
                    None => Err(StepDecodeError::Malformed),
                }
            } else {
                Err(StepDecodeError::Malformed)
            }
        },
        _ => Err(StepDecodeError::Malformed),
    }
}

/// Reads what a guest loop strategy's `step` returned.
pub fn parse_step_outcome(v: &JsonValue) -> (r: Result<StepOutcome, StepDecodeError>)
    ensures
        match r {
            Ok(o) => decode_step(v@) == Ok::<StepModel, StepErrorModel>(o@),
            Err(e) => decode_step(v@) == Err::<StepModel, StepErrorModel>(e@),
        },
{
    match v.get("kind") {
        Some(k) => match k.as_str() {
            Some(kind) => {
                let label = label_of(v, "step");
                if eq_lowered(kind.as_str(), "continue") {
                    Ok(
                        StepOutcome::Continue {
                            working_memory: member_or_null_of(v, "working_memory"),
                            label,
                        },
                    )
                } else if eq_lowered(kind.as_str(), "done") {
                    Ok(StepOutcome::Done { output: member_or_null_of(v, "output"), label })
                } else {
                    Err(StepDecodeError::UnknownKind { kind: to_ascii_lower(kind.as_str()) })
                }
            },
            None => decode_tagged(v),
        },
        None => decode_tagged(v),
    }
}

/// Whether the harness loop goes on or stops, with the reason it stops.
#[derive(Debug)]
pub enum Termination {
    Continue,
    Done { reason: String },
}

pub enum TerminationModel {
    Continue,
    Done(Seq<char>),
}

impl View for Termination {
    type V = TerminationModel;

    open spec fn view(&self) -> TerminationModel {
        match self {
            Termination::Continue => TerminationModel::Continue,
            Termination::Done { reason } => TerminationModel::Done(reason@),
        }
    }
}

/// How a guest's `should_terminate` answer reads: `true` stops with reason
/// `guest`; `false` and `null` go on; a non-empty string stops with itself
/// as the reason and the empty string goes on; an object stops when it
/// has a `done` member (its text is the reason when it is a string,
/// `guest` otherwise) or a `terminate` member that is `true`, and goes on
/// otherwise; anything else goes on.
pub open spec fn classify_spec(v: Json) -> TerminationModel {
    match v {
        Json::Bool(true) => TerminationModel::Done("guest"@),
        Json::Str(s) => if s.len() == 0 {
            TerminationModel::Continue
        } else {
            TerminationModel::Done(s)
        },
        Json::Object(_) => match v.get("done"@) {
            Some(Json::Str(r)) => TerminationModel::Done(r),
            Some(_) => TerminationModel::Done("guest"@),
            None => if v.get("terminate"@) == Some(Json::Bool(true)) {
                TerminationModel::Done("guest"@)
            } else {
                TerminationModel::Continue
            },
        },
        _ => TerminationModel::Continue,
    }
}

/// What a guest's `should_terminate` answer decides: `true` stops with
/// reason `guest`; `false` and `null` go on; a non-empty string stops with
/// itself as the reason, the empty string goes on; an object with a string
/// `done` stops with it, with any other `done` stops with `guest`, without
/// `done` stops with `guest` exactly when `terminate` is `true`.
pub proof fn law_classify(v: Json)
    ensures
        v == Json::Bool(true) ==> classify_spec(v) == TerminationModel::Done("guest"@),
        v == Json::Bool(false) || v == Json::Null ==> classify_spec(v) == TerminationModel::Continue,
        (v matches Json::Str(s) ==> classify_spec(v) == if s.len() == 0 {
            TerminationModel::Continue
        } else {
            TerminationModel::Done(s)
        }),
        v is Object ==> (v.get("done"@) matches Some(Json::Str(r)) ==> classify_spec(v)
            == TerminationModel::Done(r)),
        v is Object && v.get("done"@) is Some && !(v.get("done"@) matches Some(Json::Str(_)))
            ==> classify_spec(v) == TerminationModel::Done("guest"@),
        v is Object && v.get("done"@) is None ==> classify_spec(v) == if v.get("terminate"@) == Some(
            Json::Bool(true),
        ) {
            TerminationModel::Done("guest"@)
        } else {
            TerminationModel::Continue
        },
        v is Array || v is Number ==> classify_spec(v) == TerminationModel::Continue,
{
}

/// A guest termination strategy registered under a key.
pub struct PyTerminationAdapter<T> {
    pub target: T,
    pub label: String,
}

impl<T> PyTerminationAdapter<T> {
    pub fn new(target: T, label: String) -> (r: Self)
        ensures
            r.target == target,
            r.label@ == label@,
    {
        PyTerminationAdapter { target, label }
    }

    /// Reads a guest's `should_terminate` answer.
    pub fn classify(v: &JsonValue) -> (r: Termination)
        ensures
            r@ == classify_spec(v@),
    {
        match v {
            JsonValue::Bool(b) => if *b {
                Termination::Done { reason: String::from_str("guest") }
            } else {
                Termination::Continue
            },
            JsonValue::Str(s) => if s.unicode_len() == 0 {
                Termination::Continue
            } else {
                Termination::Done { reason: s.clone() }
            },
            JsonValue::Object(_) => match v.get("done") {
                Some(d) => match d.as_str() {
                    Some(r) => Termination::Done { reason: r.clone() },
                    None => Termination::Done { reason: String::from_str("guest") },
                },
                None => {
                    let stop = match v.get("terminate") {
                        Some(t) => match t.as_bool() {
                            Some(b) => b,
                            None => false,
                        },
                        None => false,
                    };
                    if stop {
                        Termination::Done { reason: String::from_str("guest") }
                    } else {
                        Termination::Continue
                    }
                },
            },
            _ => Termination::Continue,
        }
    }

    /// The decision for one `should_terminate` call: the answer read by
    /// `classify`, or, when the guest raised (`None`), a stop with reason
    /// `guest_error`.
    pub fn decide(reply: Option<&JsonValue>) -> (r: Termination)
        ensures
            match reply {
                Some(v) => r@ == classify_spec(v@),
                None => r@ == TerminationModel::Done("guest_error"@),
            },
    {
        match reply {
            Some(v) => Self::classify(v),
            None => Termination::Done { reason: String::from_str("guest_error") },
        }
    }
}

/// How a step result of a guest registered with the strategy factories
/// reads: an object with `done` stops with that member, one with
/// `working_memory` goes on with it (both labelled by a string `label`,
/// else `step`); any other value goes on with the whole value as working
/// memory, labelled `step`.
pub open spec fn factory_step_spec(v: Json) -> StepModel {
    match v {
        Json::Object(_) => match v.get("done"@) {
            Some(d) => StepModel::Done { output: d, label: label_or(v, "step"@) },
            None => match v.get("working_memory"@) {
                Some(w) => StepModel::Continue { working_memory: w, label: label_or(v, "step"@) },
                None => StepModel::Continue { working_memory: v, label: "step"@ },
            },
        },
        _ => StepModel::Continue { working_memory: v, label: "step"@ },
    }
}

/// A factory loop guest's step: an object with `done` stops with it, one
/// with `working_memory` goes on with it, each labelled by its string
/// `label` or `step`; any other value goes on with itself as the working
/// memory, labelled `step`.
pub proof fn law_factory_step(v: Json)
    ensures
        v is Object && v.get("done"@) is Some ==> factory_step_spec(v) == (StepModel::Done {
            output: v.get("done"@)->Some_0,
            label: match v.get("label"@) {
                Some(Json::Str(l)) => l,
                _ => "step"@,
            },
        }),
        v is Object && v.get("done"@) is None && v.get("working_memory"@) is Some ==> factory_step_spec(v)
            == (StepModel::Continue {
            working_memory: v.get("working_memory"@)->Some_0,
            label: match v.get("label"@) {
                Some(Json::Str(l)) => l,
                _ => "step"@,
            },
        }),
        !(v is Object) || (v.get("done"@) is None && v.get("working_memory"@) is None) ==> factory_step_spec(v)
            == (StepModel::Continue { working_memory: v, label: "step"@ }),
{
}

/// A loop-driving callable's answer: one with a `done` member stops with
/// it (label `callable_done`); any other answer goes on as the new working
/// memory (label `callable_step`).
pub proof fn law_callable_step(v: Json)
    ensures
        v.get("done"@) is Some ==> callable_step_spec(v) == (StepModel::Done {
            output: v.get("done"@)->Some_0,
            label: "callable_done"@,
        }),
        v.get("done"@) is None ==> callable_step_spec(v) == (StepModel::Continue {
            working_memory: v,
            label: "callable_step"@,
        }),
{
}

/// A kind-tagged step reads by its kind in any ASCII case: `continue` goes
/// on with its `working_memory` (null where missing), `done` stops with its
/// `output` (null where missing), each labelled by its string `label` or
/// `step`.
pub proof fn law_kind_tagged_step(v: Json, k: Seq<char>)
    requires
        v.get("kind"@) == Some(Json::Str(k)),
    ensures
        lowered(k) == "continue"@ ==> decode_step(v) == Ok::<StepModel, StepErrorModel>(
            StepModel::Continue {
                working_memory: match v.get("working_memory"@) {
                    Some(w) => w,
                    None => Json::Null,
                },
                label: match v.get("label"@) {
                    Some(Json::Str(l)) => l,
                    _ => "step"@,
                },
            },
        ),
        lowered(k) == "done"@ ==> decode_step(v) == Ok::<StepModel, StepErrorModel>(
            StepModel::Done {
                output: match v.get("output"@) {
                    Some(w) => w,
                    None => Json::Null,
                },
                label: match v.get("label"@) {
                    Some(Json::Str(l)) => l,
                    _ => "step"@,
                },
            },
        ),
        lowered(k) != "continue"@ && lowered(k) != "done"@ ==> decode_step(v) == Err::<
            StepModel,
            StepErrorModel,
        >(StepErrorModel::UnknownKind(lowered(k))),
{
    reveal_strlit("continue");
    reveal_strlit("done");
    if lowered(k) == "continue"@ {
        assert(lower_matches(k, "continue"@));
    } else if lower_matches(k, "continue"@) {
        assert(lowered(k) =~= "continue"@);
    }
    if lowered(k) == "done"@ {
        assert(lower_matches(k, "done"@));
    } else if lower_matches(k, "done"@) {
        assert(lowered(k) =~= "done"@);
    }
}

/// Reads the step result of a guest loop strategy built from the strategy
/// factories.
pub fn factory_step_outcome(v: &JsonValue) -> (r: StepOutcome)
    ensures
        r@ == factory_step_spec(v@),
{
    if v.is_object() {
        match v.get("done") {
            Some(d) => StepOutcome::Done { output: d.deep_clone(), label: label_of(v, "step") },
            None => match v.get("working_memory") {
                Some(w) => StepOutcome::Continue {
                    working_memory: w.deep_clone(),
                    label: label_of(v, "step"),
                },
                None => StepOutcome::Continue {
                    working_memory: v.deep_clone(),
                    label: String::from_str("step"),
                },
            },
        }
    } else {
        StepOutcome::Continue { working_memory: v.deep_clone(), label: String::from_str("step") }
    }
}

/// How the result of a callable driving a loop reads: an object with a
/// `done` member stops with that member (label `callable_done`); any other
/// value goes on as the new working memory (label `callable_step`).
pub open spec fn callable_step_spec(v: Json) -> StepModel {
    match v.get("done"@) {
        Some(d) => StepModel::Done { output: d, label: "callable_done"@ },
        None => StepModel::Continue { working_memory: v, label: "callable_step"@ },
    }
}

/// Reads the result of one call of a callable that drives a loop.
pub fn callable_step_outcome(v: &JsonValue) -> (r: StepOutcome)
    ensures
        r@ == callable_step_spec(v@),
{
    match v.get("done") {
        Some(d) => StepOutcome::Done {
            output: d.deep_clone(),
            label: String::from_str("callable_done"),
        },
        None => StepOutcome::Continue {
            working_memory: v.deep_clone(),
            label: String::from_str("callable_step"),
        },
    }
}

/// The `Termination` value handed to and from Python: a kind (`continue`
/// or `done`) and, for `done`, a reason.
#[derive(Debug)]
pub struct PyTermination {
    pub kind: String,
    pub reason: Option<String>,
}

/// What a `Termination` value means to the harness: kind `done` stops
/// (with its reason, or `done` where it has none); any other kind goes on.
pub open spec fn termination_of(kind: Seq<char>, reason: Option<Seq<char>>) -> TerminationModel {
    if kind == "done"@ {
        match reason {
            Some(r) => TerminationModel::Done(r),
            None => TerminationModel::Done("done"@),
        }
    } else {
        TerminationModel::Continue
    }
}

/// The kind of the value that stands for a decision.
pub open spec fn value_kind(t: TerminationModel) -> Seq<char> {
    match t {
        TerminationModel::Continue => "continue"@,
        TerminationModel::Done(_) => "done"@,
    }
}

/// The reason of the value that stands for a decision.
pub open spec fn value_reason(t: TerminationModel) -> Option<Seq<char>> {
    match t {
        TerminationModel::Continue => None,
        TerminationModel::Done(r) => Some(r),
    }
}

/// A decision carried over into a `Termination` value and read back is
/// the same decision.
pub proof fn law_termination_value_round_trip(t: TerminationModel)
    ensures
        termination_of(value_kind(t), value_reason(t)) == t,
{
    reveal_strlit("continue");
    reveal_strlit("done");
    assert("continue"@.len() != "done"@.len());
}

impl PyTermination {
    pub fn continue_() -> (r: Self)
        ensures
            r.kind@ == "continue"@,
            r.reason is None,
    {
        PyTermination { kind: String::from_str("continue"), reason: None }
    }

    pub fn done(reason: String) -> (r: Self)
        ensures
            r.kind@ == "done"@,
            opt_text(r.reason) == Some(reason@),
    {
        PyTermination { kind: String::from_str("done"), reason: Some(reason) }
    }

    pub fn is_done(&self) -> (r: bool)
        ensures
            r == (self.kind@ == "done"@),
    {
        str_eq(self.kind.as_str(), "done")
    }

    /// The harness decision this value stands for.
    pub fn into_inner(self) -> (r: Termination)
        ensures
            r@ == termination_of(self.kind@, opt_text(self.reason)),
    {
        if str_eq(self.kind.as_str(), "done") {
            match self.reason {
                Some(r) => Termination::Done { reason: r },
                None => Termination::Done { reason: String::from_str("done") },
            }
        } else {
            Termination::Continue
        }
    }

    /// The value that stands for a harness decision.
    pub fn from(t: Termination) -> (r: Self)
        ensures
            r.kind@ == value_kind(t@),
            opt_text(r.reason) == value_reason(t@),
    {
        match t {
            Termination::Continue => Self::continue_(),
            Termination::Done { reason } => Self::done(reason),
        }
    }
}

/// A policy's verdict handed to and from Python: kind `allow` or `deny`,
/// with a reason for `deny`.
#[derive(Debug)]
pub struct PyPolicyDecision {
    pub kind: String,
    pub reason: Option<String>,
}

/// A policy verdict.
#[derive(Debug)]
pub enum PolicyDecision {
    Allow,
    Deny { reason: String },
}

pub enum PolicyModel {
    Allow,
    Deny(Seq<char>),
}

impl View for PolicyDecision {
    type V = PolicyModel;

    open spec fn view(&self) -> PolicyModel {
        match self {
            PolicyDecision::Allow => PolicyModel::Allow,
            PolicyDecision::Deny { reason } => PolicyModel::Deny(reason@),
        }
    }
}

/// What a verdict value means: kind `deny` denies with its reason (empty
/// where it has none); any other kind allows.
pub open spec fn policy_of(kind: Seq<char>, reason: Option<Seq<char>>) -> PolicyModel {
    if kind == "deny"@ {
        match reason {
            Some(r) => PolicyModel::Deny(r),
            None => PolicyModel::Deny(Seq::empty()),
        }
    } else {
        PolicyModel::Allow
    }
}

/// The kind of the value that stands for a verdict.
pub open spec fn verdict_kind(d: PolicyModel) -> Seq<char> {
    match d {
        PolicyModel::Allow => "allow"@,
        PolicyModel::Deny(_) => "deny"@,
    }
}

/// The reason of the value that stands for a verdict.
pub open spec fn verdict_reason(d: PolicyModel) -> Option<Seq<char>> {
    match d {
        PolicyModel::Allow => None,
        PolicyModel::Deny(r) => Some(r),
    }
}

/// A verdict carried over into a `PolicyDecision` value and read back is
/// the same verdict.
pub proof fn law_policy_value_round_trip(d: PolicyModel)
    ensures
        policy_of(verdict_kind(d), verdict_reason(d)) == d,
{
    reveal_strlit("allow");
    reveal_strlit("deny");
    assert("allow"@.len() != "deny"@.len());
}

impl PyPolicyDecision {
    pub fn allow() -> (r: Self)
        ensures
            r.kind@ == "allow"@,
            r.reason is None,
    {
        PyPolicyDecision { kind: String::from_str("allow"), reason: None }
    }

    pub fn deny(reason: String) -> (r: Self)
        ensures
            r.kind@ == "deny"@,
            opt_text(r.reason) == Some(reason@),
    {
        PyPolicyDecision { kind: String::from_str("deny"), reason: Some(reason) }
    }

    /// The verdict this value stands for.
    pub fn into_inner(self) -> (r: PolicyDecision)
        ensures
            r@ == policy_of(self.kind@, opt_text(self.reason)),
    {
        if str_eq(self.kind.as_str(), "deny") {
            match self.reason {
                Some(r) => PolicyDecision::Deny { reason: r },
                None => PolicyDecision::Deny { reason: String::new() },
            }
        } else {
            PolicyDecision::Allow
        }
    }

    pub fn from(d: PolicyDecision) -> (r: Self)
        ensures
            r.kind@ == verdict_kind(d@),
            opt_text(r.reason) == verdict_reason(d@),
    {
        match d {
            PolicyDecision::Allow => Self::allow(),
            PolicyDecision::Deny { reason } => Self::deny(reason),
        }
    }
}

/// What a termination strategy built from the strategy factories answered,
/// as far as the harness reads it.
pub enum TerminationReply {
    /// A `Termination` value.
    Value(PyTermination),
    /// Any other object: its Python truth value, and its text where it is
    /// a string.
    Other { truthy: bool, text: Option<String> },
    /// The guest raised.
    Failed,
}

/// The decision of a termination strategy built from the strategy
/// factories, for one answer of its guest: a `Termination` value is read
/// as such; any other truthy answer stops (with its text as the reason, or
/// `done`); a falsy answer, or a failed call, goes on.
pub fn decide_termination_reply(reply: TerminationReply) -> (r: Termination)
    ensures
        match reply {
            TerminationReply::Value(t) => r@ == termination_of(t.kind@, opt_text(t.reason)),
            TerminationReply::Other { truthy, text } => if truthy {
                r@ == TerminationModel::Done(
                    match opt_text(text) {
                        Some(x) => x,
                        None => "done"@,
                    },
                )
            } else {
                r@ == TerminationModel::Continue
            },
            TerminationReply::Failed => r@ == TerminationModel::Continue,
        },
{
    match reply {
        TerminationReply::Value(t) => t.into_inner(),
        TerminationReply::Other { truthy, text } => if truthy {
            match text {
                Some(x) => Termination::Done { reason: x },
                None => Termination::Done { reason: String::from_str("done") },
            }
        } else {
            Termination::Continue
        },
        TerminationReply::Failed => Termination::Continue,
    }
}

/// Which termination a harness runs with, as its key names it.
#[derive(Debug)]
pub enum TerminationChoice {
    /// The built-in iteration cap.
    IterationCap { cap: u64 },
    /// A guest registered under kind `termination` with this key.
    Guest { key: String },
}

pub enum ChoiceModel {
    IterationCap(u64),
    Guest(Seq<char>),
}

/// Why a termination key names no termination.
#[derive(Debug)]
pub enum TerminationKeyError {
    /// `iteration_cap:N` where `N` is not an unsigned integer.
    BadCap { text: String },
    /// `iteration_cap` followed by something other than `:`.
    Unrecognized { key: String },
}

pub enum KeyErrorModel {
    BadCap(Seq<char>),
    Unrecognized(Seq<char>),
}

impl View for TerminationChoice {
    type V = ChoiceModel;

    open spec fn view(&self) -> ChoiceModel {
        match self {
            TerminationChoice::IterationCap { cap } => ChoiceModel::IterationCap(*cap),
            TerminationChoice::Guest { key } => ChoiceModel::Guest(key@),
        }
    }
}

impl View for TerminationKeyError {
    type V = KeyErrorModel;

    open spec fn view(&self) -> KeyErrorModel {
        match self {
            TerminationKeyError::BadCap { text } => KeyErrorModel::BadCap(text@),
            TerminationKeyError::Unrecognized { key } => KeyErrorModel::Unrecognized(key@),
        }
    }
}

/// The cap of a bare `iteration_cap` key.
pub const DEFAULT_ITERATION_CAP: u64 = 100;

/// What a termination key names: a key that starts with `iteration_cap`
/// is the built-in cap, `100` when nothing follows and `N` for
/// `iteration_cap:N`; any other key names a guest.
pub open spec fn termination_choice_spec(key: Seq<char>) -> Result<ChoiceModel, KeyErrorModel> {
    let p = "iteration_cap"@;
    if key.len() >= p.len() && key.take(p.len() as int) == p {
        let rest = key.skip(p.len() as int);
        if rest.len() == 0 {
            Ok(ChoiceModel::IterationCap(DEFAULT_ITERATION_CAP))
        } else if rest[0] == ':' {
            match parse_u64_spec(rest.skip(1)) {
                Some(n) => Ok(ChoiceModel::IterationCap(n)),
                None => Err(KeyErrorModel::BadCap(rest.skip(1))),
            }
        } else {
            Err(KeyErrorModel::Unrecognized(key))
        }
    } else {
        Ok(ChoiceModel::Guest(key))
    }
}

/// Reads a termination key.
pub fn termination_choice(key: &str) -> (r: Result<TerminationChoice, TerminationKeyError>)
    ensures
        match r {
            Ok(c) => termination_choice_spec(key@) == Ok::<ChoiceModel, KeyErrorModel>(c@),
            Err(e) => termination_choice_spec(key@) == Err::<ChoiceModel, KeyErrorModel>(e@),
        },
{
    proof {
        reveal_strlit("iteration_cap");
    }
    let n = key.unicode_len();
    if n >= 13 && str_eq(key.substring_char(0, 13), "iteration_cap") {
        assert(key@.take(13) =~= key@.subrange(0, 13));
        let rest = key.substring_char(13, n);
        assert(rest@ =~= key@.skip(13));
        if n == 13 {
            Ok(TerminationChoice::IterationCap { cap: DEFAULT_ITERATION_CAP })
        } else if rest.get_char(0) == ':' {
            let num = rest.substring_char(1, n - 13);
            assert(num@ =~= rest@.skip(1));
            match parse_u64(num) {
                Some(c) => Ok(TerminationChoice::IterationCap { cap: c }),
                None => Err(TerminationKeyError::BadCap { text: String::from_str(num) }),
            }
        } else {
            Err(TerminationKeyError::Unrecognized { key: String::from_str(key) })
        }
    } else {
        proof {
            if key@.len() >= 13 {
                assert(key@.take(13) =~= key@.subrange(0, 13));
            }
        }
        Ok(TerminationChoice::Guest { key: String::from_str(key) })
    }
}

/// The termination a harness is built with.
pub enum TerminationPlan<'a, T> {
    IterationCap { cap: u64 },
    Guest { key: String, target: &'a T },
}

/// What a harness is built from: the loop strategy's target and the
/// termination.
pub struct HarnessPlan<'a, T> {
    pub loop_target: &'a T,
    pub termination: TerminationPlan<'a, T>,
}

/// Why a harness cannot be built.
#[derive(Debug)]
pub enum HarnessPlanError {
    /// No guest of kind `loop_strategy` under this key.
    NoLoopStrategy { key: String },
    /// No guest of kind `termination` under this key.
    NoTermination { key: String },
    /// The termination key is malformed.
    BadTerminationKey { error: TerminationKeyError },
}

/// Resolves the parts of a harness: the loop strategy registered under
/// `loop_key` (kind `loop_strategy`), then the termination that
/// `termination_key` names, a registered guest being looked up under kind
/// `termination`.
pub fn plan_from_spec<'a, D, T>(reg: &'a GuestRegistry<D, T>, loop_key: &str, termination_key: &str) -> (r: Result<
    HarnessPlan<'a, T>,
    HarnessPlanError,
>)
    requires
        reg.wf(),
    ensures
        match r {
            Err(HarnessPlanError::NoLoopStrategy { key }) => !reg@.guests.contains_key(
                ("loop_strategy"@, loop_key@),
            ) && key@ == loop_key@,
            Err(HarnessPlanError::BadTerminationKey { error }) => reg@.guests.contains_key(
                ("loop_strategy"@, loop_key@),
            ) && termination_choice_spec(termination_key@) == Err::<ChoiceModel, KeyErrorModel>(
                error@,
            ),
            Err(HarnessPlanError::NoTermination { key }) => reg@.guests.contains_key(
                ("loop_strategy"@, loop_key@),
            ) && termination_choice_spec(termination_key@) == Ok::<ChoiceModel, KeyErrorModel>(
                ChoiceModel::Guest(key@),
            ) && !reg@.guests.contains_key(("termination"@, key@)),
            Ok(p) => {
                &&& reg@.guests.contains_key(("loop_strategy"@, loop_key@))
                &&& *p.loop_target == reg@.guests[("loop_strategy"@, loop_key@)]
                &&& match p.termination {
                    TerminationPlan::IterationCap { cap } => termination_choice_spec(
                        termination_key@,
                    ) == Ok::<ChoiceModel, KeyErrorModel>(ChoiceModel::IterationCap(cap)),
                    TerminationPlan::Guest { key, target } => {
                        &&& termination_choice_spec(termination_key@) == Ok::<
                            ChoiceModel,
                            KeyErrorModel,
                        >(ChoiceModel::Guest(key@))
                        &&& reg@.guests.contains_key(("termination"@, key@))
                        &&& *target == reg@.guests[("termination"@, key@)]
                    },
                }
            },
        },
{
    let loop_target = match reg.lookup("loop_strategy", loop_key) {
        Some(t) => t,
        None => return Err(HarnessPlanError::NoLoopStrategy { key: String::from_str(loop_key) }),
    };
    match termination_choice(termination_key) {
        Err(e) => Err(HarnessPlanError::BadTerminationKey { error: e }),
        Ok(TerminationChoice::IterationCap { cap }) => Ok(
            HarnessPlan { loop_target, termination: TerminationPlan::IterationCap { cap } },
        ),
        Ok(TerminationChoice::Guest { key }) => match reg.lookup("termination", key.as_str()) {
            Some(t) => Ok(HarnessPlan { loop_target, termination: TerminationPlan::Guest { key, target: t } }),
            None => Err(HarnessPlanError::NoTermination { key }),
        },
    }
}

/// The tokens a harness starts with where none are given.
pub const DEFAULT_HARNESS_TOKENS: u32 = 8000;

/// The static description of a harness.
#[derive(Debug)]
pub struct PyHarnessSpec {
    pub id: String,
    pub version: SemVersion,
    pub eval_suite_id: Option<String>,
    pub initial_token_budget: u32,
}

impl PyHarnessSpec {
    /// A harness description; the version must be a semantic version.
    pub fn new(id: String, version: &str, initial_token_budget: u32, eval_suite_id: Option<String>) -> (r: Result<
        Self,
        VersionError,
    >)
        ensures
            match r {
                Ok(s) => semver_parse(version@) == Some(s.version@) && s.id@ == id@
                    && s.initial_token_budget == initial_token_budget && s.eval_suite_id
                    == eval_suite_id,
                Err(_) => semver_parse(version@) is None,
            },
    {
        let v = match parse_version(version) {
            Ok(v) => v,
            Err(e) => return Err(e),
        };
        Ok(PyHarnessSpec { id, version: v, eval_suite_id, initial_token_budget })
    }
}

/// `iteration_cap:<N>` names the built-in cap of `N` iterations, for every
/// `N`.
pub proof fn law_iteration_cap_key(n: u64)
    ensures
        termination_choice_spec("iteration_cap:"@ + decimal_text(n as nat)) == Ok::<ChoiceModel, KeyErrorModel>(
            ChoiceModel::IterationCap(n),
        ),
{
    reveal_strlit("iteration_cap");
    reveal_strlit("iteration_cap:");
    let d = decimal_text(n as nat);
    let key = "iteration_cap:"@ + d;
    law_decimal_round_trip(n);
    assert(key.take(13) =~= "iteration_cap"@);
    let rest = key.skip(13);
    assert(rest[0] == ':');
    assert(rest.skip(1) =~= d);
}

/// A termination key that does not start with `iteration_cap` names the
/// termination guest registered under exactly that key; `iteration_cap`
/// alone is the built-in cap of 100 iterations.
pub proof fn law_guest_termination_key(key: Seq<char>)
    ensures
        !"iteration_cap"@.is_prefix_of(key) ==> termination_choice_spec(key) == Ok::<
            ChoiceModel,
            KeyErrorModel,
        >(ChoiceModel::Guest(key)),
        termination_choice_spec("iteration_cap"@) == Ok::<ChoiceModel, KeyErrorModel>(
            ChoiceModel::IterationCap(100),
        ),
{
    reveal_strlit("iteration_cap");
    if key.len() >= 13 && key.take(13) == "iteration_cap"@ {
        assert("iteration_cap"@ =~= key.subrange(0, 13));
    }
    assert("iteration_cap"@.take(13) =~= "iteration_cap"@);
    assert("iteration_cap"@.skip(13).len() == 0);
}

/// The kind-tagged JSON of a step outcome, as a guest writes it.
pub open spec fn step_json(o: StepModel) -> Json {
    match o {
        StepModel::Continue { working_memory, label } => Json::Object(
            seq![
                ("kind"@, Json::Str("continue"@)),
                ("working_memory"@, working_memory),
                ("label"@, Json::Str(label)),
            ],
        ),
        StepModel::Done { output, label } => Json::Object(
            seq![("kind"@, Json::Str("done"@)), ("output"@, output), ("label"@, Json::Str(label))],
        ),
    }
}

/// The variant-tagged JSON of a step outcome, as serde writes it.
pub open spec fn tagged_step_json(o: StepModel) -> Json {
    match o {
        StepModel::Continue { working_memory, label } => Json::Object(
            seq![
                (
                    "Continue"@,
                    Json::Object(
                        seq![("working_memory"@, working_memory), ("label"@, Json::Str(label))],
                    ),
                ),
            ],
        ),
        StepModel::Done { output, label } => Json::Object(
            seq![
                (
                    "Done"@,
                    Json::Object(seq![("output"@, output), ("label"@, Json::Str(label))]),
                ),
            ],
        ),
    }
}

/// A step outcome written in the kind-tagged form reads back as itself.
pub proof fn law_step_round_trip(o: StepModel)
    ensures
        decode_step(step_json(o)) == Ok::<StepModel, StepErrorModel>(o),
{
    reveal_strlit("kind");
    reveal_strlit("continue");
    reveal_strlit("done");
    reveal_strlit("working_memory");
    reveal_strlit("output");
    reveal_strlit("label");
    let v = step_json(o);
    let es = v->Object_0;
    assert(first_key_at(es, "kind"@, 0));
    lemma_entries_get_at(es, "kind"@, 0);
    assert("label"@.len() != "kind"@.len());
    assert("working_memory"@.len() != "kind"@.len());
    assert("output"@.len() != "kind"@.len());
    assert("working_memory"@.len() != "label"@.len());
    assert("output"@.len() != "label"@.len());
    assert(first_key_at(es, es[1].0, 1));
    lemma_entries_get_at(es, es[1].0, 1);
    assert(first_key_at(es, "label"@, 2));
    lemma_entries_get_at(es, "label"@, 2);
    match o {
        StepModel::Continue { .. } => {
            assert(lower_matches("continue"@, "continue"@));
        },
        StepModel::Done { .. } => {
            assert(!lower_matches("done"@, "continue"@));
            assert(lower_matches("done"@, "done"@));
        },
    }
}

/// A step outcome written in serde's variant-tagged form reads back as
/// itself.
pub proof fn law_tagged_step_round_trip(o: StepModel)
    ensures
        decode_step(tagged_step_json(o)) == Ok::<StepModel, StepErrorModel>(o),
{
    reveal_strlit("kind");
    reveal_strlit("Continue");
    reveal_strlit("Done");
    reveal_strlit("working_memory");
    reveal_strlit("output");
    reveal_strlit("label");
    let v = tagged_step_json(o);
    let es = v->Object_0;
    assert(es[0].0.len() != "kind"@.len() || es[0].0[0] != "kind"@[0]);
    lemma_entries_get_none(es, "kind"@);
    let b = es[0].1;
    let fs = b->Object_0;
    assert("working_memory"@.len() != "label"@.len());
    assert("output"@.len() != "label"@.len());
    assert(first_key_at(fs, fs[0].0, 0));
    lemma_entries_get_at(fs, fs[0].0, 0);
    assert(first_key_at(fs, "label"@, 1));
    lemma_entries_get_at(fs, "label"@, 1);
    assert("Done"@.len() != "Continue"@.len());
}

} // verus!

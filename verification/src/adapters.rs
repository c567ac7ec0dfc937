//! How the guest adapters pick the object they call, and how they read
//! what a guest's instruction, embedder, memory store and scorer return.

use vstd::prelude::*;

use crate::ctx::CallCtxSettings;
use crate::json::{lemma_models_of, models_of, Json, JsonNumber, JsonValue};
use crate::projection::{invoke_ctx_json, invoke_ctx_to_json};
use crate::memory::{
    memory_item_spec, str_member_or_empty, u32_member_or, ItemErrorModel, ItemModel, MemoryItem,
    MemoryItemError,
};

verus! {

/// Which object a guest adapter calls its method on.
#[derive(Debug, PartialEq, Eq, Structural)]
pub enum InstanceChoice {
    /// The registered target itself.
    Target,
    /// A fresh instance made by calling the target with no arguments.
    Construct,
}

/// Why a registered target cannot serve a method.
#[derive(Debug, PartialEq, Eq, Structural)]
pub enum NotCallable {
    NoMethodNotCallable,
}

/// The strategy and memory adapters' choice: a target that has the method
/// is used as it is; otherwise a callable target is instantiated; a target
/// that is neither is refused.
pub fn resolve_instance(has_method: bool, is_callable: bool) -> (r: Result<InstanceChoice, NotCallable>)
    ensures
        has_method ==> r == Ok::<InstanceChoice, NotCallable>(InstanceChoice::Target),
        !has_method && is_callable ==> r == Ok::<InstanceChoice, NotCallable>(InstanceChoice::Construct),
        !has_method && !is_callable ==> r == Err::<InstanceChoice, NotCallable>(NotCallable::NoMethodNotCallable),
{
    if has_method {
        Ok(InstanceChoice::Target)
    } else if is_callable {
        Ok(InstanceChoice::Construct)
    } else {
        Err(NotCallable::NoMethodNotCallable)
    }
}

/// The harness and scorer adapters' choice: like `resolve_instance`, but a
/// target that is neither is used as it is (the method lookup then fails
/// on it).
pub fn harness_instance(has_method: bool, is_callable: bool) -> (r: InstanceChoice)
    ensures
        r == (if !has_method && is_callable {
            InstanceChoice::Construct
        } else {
            InstanceChoice::Target
        }),
{
    if has_method {
        InstanceChoice::Target
    } else if is_callable {
        InstanceChoice::Construct
    } else {
        InstanceChoice::Target
    }
}

/// The tool adapter's choice: a class is instantiated with its zero-arg
/// constructor, and so is a callable object with `__call__` but no
/// `invoke` (a factory); any other target (an instance with `invoke`) is
/// used as it is.
pub open spec fn tool_choice(is_class: bool, is_callable: bool, has_call: bool, has_invoke: bool) -> InstanceChoice {
    if is_class || (is_callable && has_call && !has_invoke) {
        InstanceChoice::Construct
    } else {
        InstanceChoice::Target
    }
}

pub fn tool_instance(is_class: bool, is_callable: bool, has_call: bool, has_invoke: bool) -> (r: InstanceChoice)
    ensures
        r == tool_choice(is_class, is_callable, has_call, has_invoke),
{
    if is_class {
        InstanceChoice::Construct
    } else if is_callable && has_call && !has_invoke {
        InstanceChoice::Construct
    } else {
        InstanceChoice::Target
    }
}

/// The tool adapter calls `invoke` on a fresh instance of a class, and of
/// a factory (a callable with `__call__` but no `invoke`); an object that
/// is no class and has `invoke` is used as it is.
pub proof fn law_tool_choice(is_callable: bool, has_call: bool, has_invoke: bool)
    ensures
        tool_choice(true, is_callable, has_call, has_invoke) == InstanceChoice::Construct,
        has_invoke ==> tool_choice(false, is_callable, has_call, has_invoke) == InstanceChoice::Target,
        is_callable && has_call && !has_invoke ==> tool_choice(false, is_callable, has_call, has_invoke)
            == InstanceChoice::Construct,
        !is_callable ==> tool_choice(false, is_callable, has_call, has_invoke) == InstanceChoice::Target,
{
}

/// How a guest callable is invoked once its object is chosen.
#[derive(Debug, PartialEq, Eq, Structural)]
pub enum CallStyle {
    /// Call its `invoke(args, ctx)` method.
    Invoke,
    /// Call the object itself with `(args, ctx)`.
    Direct,
}

/// The callable adapter's choice of object: a class is instantiated once
/// with its zero-arg constructor; an instance with `invoke`, or any other
/// callable (a function, an `async def`, an object with `__call__`), is
/// used as it is; a non-callable object with a class is instantiated;
/// anything else is used as it is.
pub open spec fn callable_choice(is_class: bool, has_invoke: bool, is_callable: bool, has_class: bool) -> InstanceChoice {
    if is_class {
        InstanceChoice::Construct
    } else if has_invoke || is_callable {
        InstanceChoice::Target
    } else if has_class {
        InstanceChoice::Construct
    } else {
        InstanceChoice::Target
    }
}

pub fn callable_instance(is_class: bool, has_invoke: bool, is_callable: bool, has_class: bool) -> (r: InstanceChoice)
    ensures
        r == callable_choice(is_class, has_invoke, is_callable, has_class),
{
    if is_class {
        InstanceChoice::Construct
    } else if has_invoke || is_callable {
        InstanceChoice::Target
    } else if has_class {
        InstanceChoice::Construct
    } else {
        InstanceChoice::Target
    }
}

/// The callable adapter instantiates a class once; an object that is no
/// class and has `invoke`, or is callable, is used as it is; an object that
/// is neither is instantiated through its class.
pub proof fn law_callable_choice(has_invoke: bool, is_callable: bool, has_class: bool)
    ensures
        callable_choice(true, has_invoke, is_callable, has_class) == InstanceChoice::Construct,
        has_invoke || is_callable ==> callable_choice(false, has_invoke, is_callable, has_class)
            == InstanceChoice::Target,
        !has_invoke && !is_callable && has_class ==> callable_choice(false, has_invoke, is_callable, has_class)
            == InstanceChoice::Construct,
{
}

/// The callable adapter calls `invoke` where the chosen object has it, and
/// the object itself otherwise.
pub fn callable_style(instance_has_invoke: bool) -> (r: CallStyle)
    ensures
        r == (if instance_has_invoke {
            CallStyle::Invoke
        } else {
            CallStyle::Direct
        }),
{
    if instance_has_invoke {
        CallStyle::Invoke
    } else {
        CallStyle::Direct
    }
}

/// A guest tool: its descriptor and its registered target.
pub struct PyToolAdapter<D, T> {
    pub descriptor: D,
    pub target: T,
}

impl<D, T> PyToolAdapter<D, T> {
    pub fn new(descriptor: D, target: T) -> (r: Self)
        ensures
            r.descriptor == descriptor,
            r.target == target,
    {
        PyToolAdapter { descriptor, target }
    }

    pub fn descriptor(&self) -> (r: &D)
        ensures
            *r == self.descriptor,
    {
        &self.descriptor
    }

    /// The context the guest's `invoke` receives.
    pub fn build_ctx_json<M>(tool_call_id: &str, ctx: &CallCtxSettings<M>) -> (r: JsonValue)
        ensures
            r@ == invoke_ctx_json(tool_call_id@, *ctx),
    {
        invoke_ctx_to_json(tool_call_id, ctx)
    }

    /// The object the guest's `invoke` is called on: a fresh instance of a
    /// class, the instance itself otherwise.
    pub fn instance_choice(is_class: bool, is_callable: bool, has_call: bool, has_invoke: bool) -> (r: InstanceChoice)
        ensures
            r == tool_choice(is_class, is_callable, has_call, has_invoke),
    {
        tool_instance(is_class, is_callable, has_call, has_invoke)
    }
}

/// A rendered system prompt with its token estimate.
#[derive(Debug)]
pub struct RenderedInstructions {
    pub system_prompt: String,
    pub estimated_tokens: u32,
}

/// Why a guest's answer has the wrong shape.
#[derive(Debug, PartialEq, Eq, Structural)]
pub enum ShapeError {
    NotAnObject,
    NotAnArray,
    /// The element at `index` is not a number.
    NotANumber { index: usize },
}

/// Reads an instruction strategy's `render` answer: an object whose
/// string `system_prompt` (empty where missing) and `estimated_tokens`
/// (a `u64` cut down to 32 bits, zero where missing) are taken.
pub fn decode_instructions(v: &JsonValue) -> (r: Result<RenderedInstructions, ShapeError>)
    ensures
        match r {
            Ok(ri) => v@.is_object() && ri.system_prompt@ == str_member_or_empty(v@, "system_prompt"@)
                && ri.estimated_tokens == u32_member_or(v@, "estimated_tokens"@, 0),
            Err(e) => !v@.is_object() && e == ShapeError::NotAnObject,
        },
{
    if !v.is_object() {
        return Err(ShapeError::NotAnObject);
    }
    let system_prompt = match v.get("system_prompt") {
        Some(p) => match p.as_str() {
            Some(s) => s.clone(),
            None => String::new(),
        },
        None => String::new(),
    };
    let estimated_tokens: u32 = match v.get("estimated_tokens") {
        Some(t) => match t.as_u64() {
            Some(n) => n as u32,
            None => 0,
        },
        None => 0,
    };
    Ok(RenderedInstructions { system_prompt, estimated_tokens })
}

/// Why the instruction strategy's own adapter refuses a guest's answer.
#[derive(Debug, PartialEq, Eq, Structural)]
pub enum InstructionsError {
    /// The answer is not a dict.
    NotAnObject,
    /// The dict has no `system_prompt`.
    MissingSystemPrompt,
    /// `system_prompt` is not a string.
    SystemPromptNotText,
    /// `estimated_tokens` is present but is not an integer that fits in 32
    /// bits.
    TokensNotU32,
}

/// Whether a JSON value is an integer that fits in 32 bits.
pub open spec fn is_u32_json(x: Json) -> bool {
    x.as_u64() matches Some(n) && n <= u32::MAX
}

/// How the instruction strategy adapter reads a dict answer: a string
/// `system_prompt` is required, and `estimated_tokens`, where present, must
/// be an integer that fits in 32 bits (zero where absent).
pub open spec fn strict_instructions_spec(v: Json) -> Result<(Seq<char>, u32), InstructionsError> {
    if !v.is_object() {
        Err(InstructionsError::NotAnObject)
    } else {
        match v.get("system_prompt"@) {
            None => Err(InstructionsError::MissingSystemPrompt),
            Some(p) => match p.as_str() {
                None => Err(InstructionsError::SystemPromptNotText),
                Some(sp) => match v.get("estimated_tokens"@) {
                    None => Ok((sp, 0u32)),
                    Some(t) => if is_u32_json(t) {
                        Ok((sp, t.as_u64()->Some_0 as u32))
                    } else {
                        Err(InstructionsError::TokensNotU32)
                    },
                },
            },
        }
    }
}

/// Reads an instruction strategy's `render` answer strictly, as the
/// strategy's own adapter does; see `strict_instructions_spec`.
pub fn decode_instructions_strict(v: &JsonValue) -> (r: Result<RenderedInstructions, InstructionsError>)
    ensures
        match r {
            Ok(ri) => strict_instructions_spec(v@) == Ok::<(Seq<char>, u32), InstructionsError>(
                (ri.system_prompt@, ri.estimated_tokens),
            ),
            Err(e) => strict_instructions_spec(v@) == Err::<(Seq<char>, u32), InstructionsError>(e),
        },
{
    if !v.is_object() {
        return Err(InstructionsError::NotAnObject);
    }
    let system_prompt = match v.get("system_prompt") {
        None => return Err(InstructionsError::MissingSystemPrompt),
        Some(p) => match p.as_str() {
            None => return Err(InstructionsError::SystemPromptNotText),
            Some(s) => s.clone(),
        },
    };
    let estimated_tokens: u32 = match v.get("estimated_tokens") {
        None => 0,
        Some(t) => match t.as_u64() {
            Some(n) => if n <= 0xFFFF_FFFF {
                n as u32
            } else {
                return Err(InstructionsError::TokensNotU32);
            },
            None => return Err(InstructionsError::TokensNotU32),
        },
    };
    Ok(RenderedInstructions { system_prompt, estimated_tokens })
}

/// The parts of a rendered persona that a persona guest's dict answer sets;
/// the rest of the persona keeps its defaults.
#[derive(Debug)]
pub struct RenderedPersonaFields {
    pub identity: String,
    pub estimated_tokens: u32,
}

/// Reads a persona strategy's `resolve` answer: an object whose string
/// `identity` (empty where missing) and `estimated_tokens` (a `u64` cut down
/// to 32 bits, zero where missing) are taken.
pub fn decode_persona(v: &JsonValue) -> (r: Result<RenderedPersonaFields, ShapeError>)
    ensures
        match r {
            Ok(p) => v@.is_object() && p.identity@ == str_member_or_empty(v@, "identity"@)
                && p.estimated_tokens == u32_member_or(v@, "estimated_tokens"@, 0),
            Err(e) => !v@.is_object() && e == ShapeError::NotAnObject,
        },
{
    if !v.is_object() {
        return Err(ShapeError::NotAnObject);
    }
    let identity = match v.get("identity") {
        Some(p) => match p.as_str() {
            Some(s) => s.clone(),
            None => String::new(),
        },
        None => String::new(),
    };
    let estimated_tokens: u32 = match v.get("estimated_tokens") {
        Some(t) => match t.as_u64() {
            Some(n) => n as u32,
            None => 0,
        },
        None => 0,
    };
    Ok(RenderedPersonaFields { identity, estimated_tokens })
}

/// The tokens a resolved persona takes from its parent budget: its estimate,
/// but never more than the budget has left.
pub open spec fn persona_tokens_charged_spec(remaining: u32, estimated: u32) -> u32 {
    if estimated < remaining {
        estimated
    } else {
        remaining
    }
}

pub fn persona_tokens_charged(remaining: u32, estimated: u32) -> (r: u32)
    ensures
        r == persona_tokens_charged_spec(remaining, estimated),
{
    if estimated < remaining {
        estimated
    } else {
        remaining
    }
}

/// What the parent budget has left once a resolved persona is charged.
pub fn persona_budget_after(remaining: u32, estimated: u32) -> (r: u32)
    ensures
        r == remaining - persona_tokens_charged_spec(remaining, estimated),
        estimated >= remaining ==> r == 0,
{
    remaining - persona_tokens_charged(remaining, estimated)
}

/// The identity a persona reconciler's answer gives: the string `identity`
/// of an object answer (empty where missing); an answer that is no object,
/// or a guest that failed (`None`), gives the default persona, whose
/// identity is empty.
pub fn reconciled_identity(answer: Option<&JsonValue>) -> (r: String)
    ensures
        r@ == match answer {
            Some(v) => if v@.is_object() {
                str_member_or_empty(v@, "identity"@)
            } else {
                Seq::<char>::empty()
            },
            None => Seq::<char>::empty(),
        },
{
    match answer {
        Some(v) => match decode_persona(v) {
            Ok(p) => p.identity,
            Err(_) => String::new(),
        },
        None => String::new(),
    }
}

/// Reads an embedding: an array of numbers, kept as their texts.
pub fn decode_number_array(v: &JsonValue) -> (r: Result<Vec<JsonNumber>, ShapeError>)
    ensures
        match r {
            Ok(ns) => match v@ {
                Json::Array(xs) => ns@.len() == xs.len() && forall|i: int|
                    0 <= i < xs.len() ==> xs[i].as_number() == Some(#[trigger] ns@[i]@),
                _ => false,
            },
            Err(ShapeError::NotAnArray) => !(v@ is Array),
            Err(ShapeError::NotANumber { index }) => match v@ {
                Json::Array(xs) => index < xs.len() && xs[index as int].as_number() is None && forall|j: int|
                    0 <= j < index ==> (#[trigger] xs[j]).as_number() is Some,
                _ => false,
            },
            Err(ShapeError::NotAnObject) => false,
        },
{
    let xs = match v.as_array() {
        Some(xs) => xs,
        None => return Err(ShapeError::NotAnArray),
    };
    let ghost ms = models_of(xs@);
    proof {
        lemma_models_of(xs@);
    }
    let mut out: Vec<JsonNumber> = Vec::new();
    let mut i: usize = 0;
    while i < xs.len()
        invariant
            v@ == Json::Array(ms),
            ms == models_of(xs@),
            ms.len() == xs@.len(),
            forall|k: int| 0 <= k < xs@.len() ==> #[trigger] ms[k] == xs@[k]@,
            i <= xs.len(),
            out@.len() == i,
            forall|k: int| 0 <= k < i ==> (#[trigger] ms[k]).as_number() == Some(out@[k]@),
        decreases xs.len() - i,
    {
        match xs[i].as_number() {
            Some(n) => {
                out.push(n.copy_number());
            },
            None => {
                return Err(ShapeError::NotANumber { index: i });
            },
        }
        i = i + 1;
    }
    Ok(out)
}

/// Why a batch of embeddings has the wrong shape.
#[derive(Debug, PartialEq, Eq, Structural)]
pub enum BatchShapeError {
    NotAnArray,
    /// The embedding at `index` has the wrong shape.
    Element { index: usize, error: ShapeError },
}

/// Whether `x` reads as an embedding.
pub open spec fn is_number_array(x: Json) -> bool {
    match x {
        Json::Array(ys) => forall|k: int| 0 <= k < ys.len() ==> (#[trigger] ys[k]).as_number() is Some,
        _ => false,
    }
}

/// Reads a batch of embeddings: an array of arrays of numbers.
pub fn decode_number_arrays(v: &JsonValue) -> (r: Result<Vec<Vec<JsonNumber>>, BatchShapeError>)
    ensures
        match r {
            Ok(rows) => match v@ {
                Json::Array(xs) => rows@.len() == xs.len() && forall|i: int|
                    0 <= i < xs.len() ==> match xs[i] {
                        Json::Array(ys) => (#[trigger] rows@[i])@.len() == ys.len() && forall|k: int|
                            0 <= k < ys.len() ==> ys[k].as_number() == Some(rows@[i]@[k]@),
                        _ => false,
                    },
                _ => false,
            },
            Err(BatchShapeError::NotAnArray) => !(v@ is Array),
            Err(BatchShapeError::Element { index, error }) => match v@ {
                Json::Array(xs) => index < xs.len() && !is_number_array(xs[index as int]) && (forall|j: int|
                    0 <= j < index ==> is_number_array(#[trigger] xs[j])) && match error {
                    ShapeError::NotAnArray => !(xs[index as int] is Array),
                    ShapeError::NotANumber { index: k } => match xs[index as int] {
                        Json::Array(ys) => k < ys.len() && ys[k as int].as_number() is None && forall|m: int|
                            0 <= m < k ==> (#[trigger] ys[m]).as_number() is Some,
                        _ => false,
                    },
                    ShapeError::NotAnObject => false,
                },
                _ => false,
            },
        },
{
    let xs = match v.as_array() {
        Some(xs) => xs,
        None => return Err(BatchShapeError::NotAnArray),
    };
    let ghost ms = models_of(xs@);
    proof {
        lemma_models_of(xs@);
    }
    let mut out: Vec<Vec<JsonNumber>> = Vec::new();
    let mut i: usize = 0;
    while i < xs.len()
        invariant
            v@ == Json::Array(ms),
            ms == models_of(xs@),
            ms.len() == xs@.len(),
            forall|k: int| 0 <= k < xs@.len() ==> #[trigger] ms[k] == xs@[k]@,
            i <= xs.len(),
            out@.len() == i,
            forall|j: int| 0 <= j < i ==> is_number_array(#[trigger] ms[j]),
            forall|j: int|
                0 <= j < i ==> match ms[j] {
                    Json::Array(ys) => (#[trigger] out@[j])@.len() == ys.len() && forall|k: int|
                        0 <= k < ys.len() ==> ys[k].as_number() == Some(out@[j]@[k]@),
                    _ => false,
                },
        decreases xs.len() - i,
    {
        match decode_number_array(&xs[i]) {
            Ok(row) => {
                proof {
                    let ys = ms[i as int]->Array_0;
                    assert forall|k: int| 0 <= k < ys.len() implies (#[trigger] ys[k]).as_number() is Some by {
                        assert(ys[k].as_number() == Some(row@[k]@));
                    }
                }
                out.push(row);
            },
            Err(e) => {
                return Err(BatchShapeError::Element { index: i, error: e });
            },
        }
        i = i + 1;
    }
    Ok(out)
}

/// Why a memory store's `list` answer cannot be read.
#[derive(Debug)]
pub enum ItemListError {
    NotAnArray,
    /// The record at `index` does not read.
    Item { index: usize, error: MemoryItemError },
}

/// Reads a memory store's `list` answer: an array of memory records.
pub fn decode_memory_items(v: &JsonValue) -> (r: Result<Vec<MemoryItem>, ItemListError>)
    ensures
        match r {
            Ok(items) => match v@ {
                Json::Array(xs) => items@.len() == xs.len() && forall|i: int|
                    0 <= i < xs.len() ==> memory_item_spec(xs[i]) == Ok::<ItemModel, ItemErrorModel>(
                        (#[trigger] items@[i])@,
                    ),
                _ => false,
            },
            Err(ItemListError::NotAnArray) => !(v@ is Array),
            Err(ItemListError::Item { index, error }) => match v@ {
                Json::Array(xs) => index < xs.len() && memory_item_spec(xs[index as int]) == Err::<
                    ItemModel,
                    ItemErrorModel,
                >(error@) && forall|j: int|
                    0 <= j < index ==> (#[trigger] memory_item_spec(xs[j])) is Ok,
                _ => false,
            },
        },
{
    let xs = match v.as_array() {
        Some(xs) => xs,
        None => return Err(ItemListError::NotAnArray),
    };
    let ghost ms = models_of(xs@);
    proof {
        lemma_models_of(xs@);
    }
    let mut out: Vec<MemoryItem> = Vec::new();
    let mut i: usize = 0;
    while i < xs.len()
        invariant
            v@ == Json::Array(ms),
            ms == models_of(xs@),
            ms.len() == xs@.len(),
            forall|k: int| 0 <= k < xs@.len() ==> #[trigger] ms[k] == xs@[k]@,
            i <= xs.len(),
            out@.len() == i,
            forall|j: int| 0 <= j < i ==> (#[trigger] memory_item_spec(ms[j])) is Ok,
            forall|j: int|
                0 <= j < i ==> memory_item_spec(ms[j]) == Ok::<ItemModel, ItemErrorModel>(
                    (#[trigger] out@[j])@,
                ),
        decreases xs.len() - i,
    {
        match crate::memory::parse_memory_item_value(&xs[i]) {
            Ok(item) => {
                out.push(item);
            },
            Err(e) => {
                return Err(ItemListError::Item { index: i, error: e });
            },
        }
        i = i + 1;
    }
    Ok(out)
}

} // verus!

//! What guests are shown of the host's state: the agent context, token
//! budgets, call contexts, tool-invocation contexts and harness state,
//! each as the JSON document a guest receives.

use vstd::prelude::*;
use vstd::string::StringExecFns;

use crate::ctx::{entries_iterations, entries_time_ms, entries_tokens, entries_trace, CallCtxSettings, CtxEntries};
use crate::json::{entries_get, first_key_at, lemma_entries_get_at, lemma_entries_get_none, entry_models_of, lemma_entry_models_of, lemma_models_of, models_of, Json, JsonNumber, JsonValue};
use crate::memory::texts_of;
use crate::names::{message_role_name, message_role_to_str, MessageRole};
use crate::text::{decimal_string, decimal_text, i64_string, int_text, lemma_decimal_text, opt_text};

verus! {

/// The JSON number of an unsigned integer.
pub open spec fn nat_json(n: nat) -> Json {
    Json::Number(decimal_text(n))
}

fn u64_json(n: u64) -> (r: JsonValue)
    ensures
        r@ == nat_json(n as nat),
{
    JsonValue::Number(JsonNumber { text: decimal_string(n) })
}

fn text_json(s: &str) -> (r: JsonValue)
    ensures
        r@ == Json::Str(s@),
{
    JsonValue::Str(String::from_str(s))
}

/// A list of texts as a JSON array of strings.
pub open spec fn texts_json(ts: Seq<Seq<char>>) -> Json {
    Json::Array(ts.map_values(|t: Seq<char>| Json::Str(t)))
}

fn texts_to_json(ts: &Vec<String>) -> (r: JsonValue)
    ensures
        r@ == texts_json(texts_of(ts@)),
{
    let mut out: Vec<JsonValue> = Vec::new();
    let mut i: usize = 0;
    while i < ts.len()
        invariant
            i <= ts@.len(),
            out@.len() == i,
            forall|j: int| 0 <= j < i ==> (#[trigger] out@[j])@ == Json::Str(ts@[j]@),
        decreases ts.len() - i,
    {
        out.push(JsonValue::Str(ts[i].clone()));
        i = i + 1;
    }
    proof {
        lemma_models_of(out@);
        assert(models_of(out@) =~= texts_json(texts_of(ts@))->Array_0);
    }
    JsonValue::Array(out)
}

/// An entry that is present only when the text is.
pub open spec fn optional_entry(key: Seq<char>, v: Option<Seq<char>>) -> Seq<(Seq<char>, Json)> {
    match v {
        Some(s) => seq![(key, Json::Str(s))],
        None => Seq::empty(),
    }
}

/// The turn an agent is asked to handle: the user's message and the
/// messages before it.
pub struct AgentContextView {
    pub agent_id: String,
    pub team_id: Option<String>,
    pub org_id: Option<String>,
    pub user: String,
    pub history: Vec<(MessageRole, String)>,
}

/// The JSON of one earlier message: `role` and `content`.
pub open spec fn message_json(role: MessageRole, content: Seq<char>) -> Json {
    Json::Object(seq![("role"@, Json::Str(message_role_name(role))), ("content"@, Json::Str(content))])
}

/// The agent context a guest strategy receives: `agent_id`, `team_id` and
/// `org_id` where the agent has them, and the `turn` with its `user`
/// message and `history`.
pub open spec fn agent_ctx_json(ctx: AgentContextView) -> Json {
    Json::Object(
        seq![("agent_id"@, Json::Str(ctx.agent_id@))] + optional_entry("team_id"@, opt_text(ctx.team_id))
            + optional_entry("org_id"@, opt_text(ctx.org_id)) + seq![
            (
                "turn"@,
                Json::Object(
                    seq![
                        ("user"@, Json::Str(ctx.user@)),
                        (
                            "history"@,
                            Json::Array(
                                ctx.history@.map_values(
                                    |m: (MessageRole, String)| message_json(m.0, m.1@),
                                ),
                            ),
                        ),
                    ],
                ),
            ),
        ],
    )
}

fn push_optional(es: &mut Vec<(String, JsonValue)>, key: &str, v: &Option<String>)
    ensures
        entry_models_of(final(es)@) == entry_models_of(old(es)@) + optional_entry(key@, opt_text(*v)),
{
    proof {
        lemma_entry_models_of(old(es)@);
    }
    match v {
        Some(s) => {
            es.push((String::from_str(key), JsonValue::Str(s.clone())));
        },
        None => {},
    }
    proof {
        lemma_entry_models_of(es@);
        assert(entry_models_of(es@) =~= entry_models_of(old(es)@) + optional_entry(key@, opt_text(*v)));
    }
}

/// The agent context as a guest strategy receives it.
pub fn build_agent_ctx_json(ctx: &AgentContextView) -> (r: JsonValue)
    ensures
        r@ == agent_ctx_json(*ctx),
{
    let mut history: Vec<JsonValue> = Vec::new();
    let mut i: usize = 0;
    while i < ctx.history.len()
        invariant
            i <= ctx.history@.len(),
            history@.len() == i,
            forall|j: int|
                0 <= j < i ==> (#[trigger] history@[j])@ == message_json(ctx.history@[j].0, ctx.history@[j].1@),
        decreases ctx.history.len() - i,
    {
        let mut m: Vec<(String, JsonValue)> = Vec::new();
        m.push((String::from_str("role"), text_json(message_role_to_str(ctx.history[i].0))));
        m.push((String::from_str("content"), JsonValue::Str(ctx.history[i].1.clone())));
        proof {
            lemma_entry_models_of(m@);
            assert(entry_models_of(m@) =~= message_json(ctx.history@[i as int].0, ctx.history@[i as int].1@)->Object_0);
        }
        history.push(JsonValue::Object(m));
        i = i + 1;
    }
    proof {
        lemma_models_of(history@);
        assert(models_of(history@) =~= ctx.history@.map_values(
            |m: (MessageRole, String)| message_json(m.0, m.1@),
        ));
    }
    let mut turn: Vec<(String, JsonValue)> = Vec::new();
    turn.push((String::from_str("user"), JsonValue::Str(ctx.user.clone())));
    turn.push((String::from_str("history"), JsonValue::Array(history)));
    let mut es: Vec<(String, JsonValue)> = Vec::new();
    es.push((String::from_str("agent_id"), JsonValue::Str(ctx.agent_id.clone())));
    proof {
        lemma_entry_models_of(es@);
        assert(entry_models_of(es@) =~= seq![("agent_id"@, Json::Str(ctx.agent_id@))]);
    }
    push_optional(&mut es, "team_id", &ctx.team_id);
    push_optional(&mut es, "org_id", &ctx.org_id);
    let ghost before = es@;
    let turn_json = JsonValue::Object(turn);
    proof {
        lemma_entry_models_of(turn@);
        assert(entry_models_of(turn@) =~= agent_ctx_json(*ctx)->Object_0.last().1->Object_0);
    }
    es.push((String::from_str("turn"), turn_json));
    proof {
        assert(es@.drop_last() =~= before);
        assert(entry_models_of(es@) == entry_models_of(before).push(("turn"@, turn_json@)));
        assert(entry_models_of(es@) =~= agent_ctx_json(*ctx)->Object_0);
    }
    JsonValue::Object(es)
}

/// The agent context shown to guests reads back as the agent's id, its
/// team and org where it has them, and a `turn` holding the user's message
/// and one entry per earlier message, each with its role's name and its
/// content.
pub proof fn law_agent_ctx_json(ctx: AgentContextView)
    ensures
        agent_ctx_json(ctx).get("agent_id"@) == Some(Json::Str(ctx.agent_id@)),
        agent_ctx_json(ctx).get("team_id"@) == match opt_text(ctx.team_id) {
            Some(t) => Some(Json::Str(t)),
            None => None::<Json>,
        },
        agent_ctx_json(ctx).get("org_id"@) == match opt_text(ctx.org_id) {
            Some(t) => Some(Json::Str(t)),
            None => None::<Json>,
        },
        agent_ctx_json(ctx).get("turn"@) matches Some(turn) && turn.get("user"@) == Some(Json::Str(ctx.user@))
            && (turn.get("history"@) matches Some(Json::Array(hs)) && hs.len() == ctx.history@.len()
            && forall|i: int|
            0 <= i < hs.len() ==> (#[trigger] hs[i]).get("role"@) == Some(
                Json::Str(message_role_name(ctx.history@[i].0)),
            ) && hs[i].get("content"@) == Some(Json::Str(ctx.history@[i].1@))),
{
    reveal_strlit("agent_id");
    reveal_strlit("team_id");
    reveal_strlit("org_id");
    reveal_strlit("turn");
    reveal_strlit("user");
    reveal_strlit("history");
    reveal_strlit("role");
    reveal_strlit("content");
    let es = agent_ctx_json(ctx)->Object_0;
    let t: int = if ctx.team_id is Some { 1 } else { 0 };
    let o: int = if ctx.org_id is Some { 1 } else { 0 };
    let n = 1 + t + o;
    assert(es.len() == n + 1);
    assert(es[0].0 == "agent_id"@);
    assert(es[n].0 == "turn"@);
    assert(t == 1 ==> es[1].0 == "team_id"@);
    assert(o == 1 ==> es[1 + t].0 == "org_id"@);
    assert(es[0].0[0] == 'a');
    assert(es[n].0[1] == 'u');
    assert(t == 1 ==> es[1].0[1] == 'e');
    assert(o == 1 ==> es[1 + t].0[0] == 'o');
    lemma_member_at(es, "agent_id"@, 0);
    lemma_member_at(es, "turn"@, n);
    if t == 1 {
        lemma_member_at(es, "team_id"@, 1);
    } else {
        assert forall|i: int| 0 <= i < es.len() implies (#[trigger] es[i]).0 != "team_id"@ by {
            assert(es[i].0[1] != 'e');
        }
        lemma_entries_get_none(es, "team_id"@);
    }
    if o == 1 {
        lemma_member_at(es, "org_id"@, 1 + t);
    } else {
        assert forall|i: int| 0 <= i < es.len() implies (#[trigger] es[i]).0 != "org_id"@ by {
            assert(es[i].0[0] != 'o');
        }
        lemma_entries_get_none(es, "org_id"@);
    }
    let turn = es[n].1;
    let ts = turn->Object_0;
    assert(ts[0].0[0] == 'u');
    lemma_member_at(ts, "user"@, 0);
    lemma_member_at(ts, "history"@, 1);
    let hs = ctx.history@.map_values(|m: (MessageRole, String)| message_json(m.0, m.1@));
    assert forall|i: int| 0 <= i < hs.len() implies (#[trigger] hs[i]).get("role"@) == Some(
        Json::Str(message_role_name(ctx.history@[i].0)),
    ) && hs[i].get("content"@) == Some(Json::Str(ctx.history@[i].1@)) by {
        let ms = hs[i]->Object_0;
        assert(ms[0].0[0] == 'r');
        lemma_member_at(ms, "role"@, 0);
        lemma_member_at(ms, "content"@, 1);
    }
}

/// A token budget as guests see it: `remaining` and `reserved`.
pub open spec fn budget_json(remaining: u32, reserved: u32) -> Json {
    Json::Object(seq![("remaining"@, nat_json(remaining as nat)), ("reserved"@, nat_json(reserved as nat))])
}

pub fn build_budget_json(remaining: u32, reserved: u32) -> (r: JsonValue)
    ensures
        r@ == budget_json(remaining, reserved),
{
    let mut es: Vec<(String, JsonValue)> = Vec::new();
    es.push((String::from_str("remaining"), u64_json(remaining as u64)));
    es.push((String::from_str("reserved"), u64_json(reserved as u64)));
    proof {
        lemma_entry_models_of(es@);
        assert(entry_models_of(es@) =~= budget_json(remaining, reserved)->Object_0);
    }
    JsonValue::Object(es)
}

/// A call context as guest callables see it: `agent_id` where there is
/// one, what is left of each budget (money in micro-dollars), and the
/// trace.
pub open spec fn callctx_json(c: CallCtxSettings<u64>) -> Json {
    Json::Object(
        optional_entry("agent_id"@, opt_text(c.agent_id)) + seq![
            ("tokens_remaining"@, nat_json(c.tokens as nat)),
            ("time_ms_remaining"@, nat_json(c.time_ms as nat)),
            ("money_micro_usd_remaining"@, nat_json(c.money as nat)),
            ("iterations_remaining"@, nat_json(c.iterations as nat)),
            ("trace"@, texts_json(texts_of(c.trace@))),
        ],
    )
}

pub fn callctx_to_json(c: &CallCtxSettings<u64>) -> (r: JsonValue)
    ensures
        r@ == callctx_json(*c),
{
    let mut es: Vec<(String, JsonValue)> = Vec::new();
    push_optional(&mut es, "agent_id", &c.agent_id);
    let ghost before = es@;
    es.push((String::from_str("tokens_remaining"), u64_json(c.tokens as u64)));
    es.push((String::from_str("time_ms_remaining"), u64_json(c.time_ms)));
    es.push((String::from_str("money_micro_usd_remaining"), u64_json(c.money)));
    es.push((String::from_str("iterations_remaining"), u64_json(c.iterations as u64)));
    es.push((String::from_str("trace"), texts_to_json(&c.trace)));
    proof {
        lemma_entry_models_of(before);
        lemma_entry_models_of(es@);
        assert(entry_models_of(es@) =~= callctx_json(*c)->Object_0);
    }
    JsonValue::Object(es)
}

/// `o` is what a ctx dict whose JSON form is `j` holds under `key`, read as
/// a `u32`: nothing where the key is missing or holds null.
pub open spec fn u32_member_read(j: Json, key: Seq<char>, o: Option<u32>) -> bool {
    match j.get(key) {
        None => o is None,
        Some(Json::Null) => o is None,
        Some(x) => x.as_u64() matches Some(n) && n <= u32::MAX && o == Some(n as u32),
    }
}

/// `o` is what a ctx dict whose JSON form is `j` holds under `key`, read as
/// a `u64`.
pub open spec fn u64_member_read(j: Json, key: Seq<char>, o: Option<u64>) -> bool {
    match j.get(key) {
        None => o is None,
        Some(Json::Null) => o is None,
        Some(x) => x.as_u64() is Some && o == x.as_u64(),
    }
}

/// `o` is what a ctx dict whose JSON form is `j` holds under `key`, read as
/// a string.
pub open spec fn text_member_read(j: Json, key: Seq<char>, o: Option<String>) -> bool {
    match j.get(key) {
        None => o is None,
        Some(Json::Null) => o is None,
        Some(x) => x.as_str() is Some && opt_text(o) == x.as_str(),
    }
}

/// `o` is what a ctx dict whose JSON form is `j` holds under `key`, read as
/// a list of strings.
pub open spec fn texts_member_read(j: Json, key: Seq<char>, o: Option<Vec<String>>) -> bool {
    match j.get(key) {
        None => o is None,
        Some(Json::Null) => o is None,
        Some(x) => o matches Some(t) && x == texts_json(texts_of(t@)),
    }
}

/// `e` is what a ctx dict whose JSON form is `j` holds under every key the
/// ctx reader takes, but the two money keys, whose amounts are in the
/// caller's own form.
pub open spec fn ctx_entries_read<M>(j: Json, e: CtxEntries<M>) -> bool {
    &&& j is Object
    &&& text_member_read(j, "agent_id"@, e.agent_id)
    &&& u32_member_read(j, "tokens_remaining"@, e.tokens_remaining)
    &&& u32_member_read(j, "tokens"@, e.tokens)
    &&& u32_member_read(j, "token_budget"@, e.token_budget)
    &&& u64_member_read(j, "time_ms_remaining"@, e.time_ms_remaining)
    &&& u64_member_read(j, "time_ms"@, e.time_ms)
    &&& u64_member_read(j, "time_budget_ms"@, e.time_budget_ms)
    &&& u32_member_read(j, "iterations_remaining"@, e.iterations_remaining)
    &&& u32_member_read(j, "iterations"@, e.iterations)
    &&& u32_member_read(j, "iteration_budget"@, e.iteration_budget)
    &&& texts_member_read(j, "trace"@, e.trace)
}

proof fn lemma_nat_json_u64(n: u64)
    ensures
        nat_json(n as nat).as_u64() == Some(n),
{
    lemma_decimal_text(n as nat);
}

proof fn lemma_texts_json_injective(a: Seq<Seq<char>>, b: Seq<Seq<char>>)
    requires
        texts_json(a) == texts_json(b),
    ensures
        a == b,
{
    let ma = a.map_values(|t: Seq<char>| Json::Str(t));
    let mb = b.map_values(|t: Seq<char>| Json::Str(t));
    assert(ma == mb);
    assert(a.len() == ma.len());
    assert forall|i: int| 0 <= i < a.len() implies a[i] == b[i] by {
        assert(ma[i] == Json::Str(a[i]));
        assert(mb[i] == Json::Str(b[i]));
    }
    assert(a =~= b);
}

/// Where each member of a written call context stands.
proof fn lemma_callctx_entries(c: CallCtxSettings<u64>)
    ensures
        ({
            let es = callctx_json(c)->Object_0;
            let k: int = if c.agent_id is Some { 1 } else { 0 };
            &&& callctx_json(c) is Object
            &&& es.len() == k + 5
            &&& c.agent_id is Some ==> es[0] == ("agent_id"@, Json::Str(opt_text(c.agent_id)->Some_0))
            &&& es[k] == ("tokens_remaining"@, nat_json(c.tokens as nat))
            &&& es[k + 1] == ("time_ms_remaining"@, nat_json(c.time_ms as nat))
            &&& es[k + 2] == ("money_micro_usd_remaining"@, nat_json(c.money as nat))
            &&& es[k + 3] == ("iterations_remaining"@, nat_json(c.iterations as nat))
            &&& es[k + 4] == ("trace"@, texts_json(texts_of(c.trace@)))
        }),
{
}

/// The first entry holding `key` gives the member under it.
proof fn lemma_member_at(es: Seq<(Seq<char>, Json)>, key: Seq<char>, i: int)
    requires
        0 <= i < es.len(),
        es[i].0 == key,
        forall|j: int| 0 <= j < i ==> (#[trigger] es[j]).0 != key,
    ensures
        Json::Object(es).get(key) == Some(es[i].1),
{
    assert(first_key_at(es, key, i));
    lemma_entries_get_at(es, key, i);
}

/// The members a written call context holds under the keys the ctx reader
/// takes.
proof fn lemma_callctx_members(c: CallCtxSettings<u64>)
    ensures
        callctx_json(c).get("tokens_remaining"@) == Some(nat_json(c.tokens as nat)),
        callctx_json(c).get("time_ms_remaining"@) == Some(nat_json(c.time_ms as nat)),
        callctx_json(c).get("iterations_remaining"@) == Some(nat_json(c.iterations as nat)),
        callctx_json(c).get("trace"@) == Some(texts_json(texts_of(c.trace@))),
        callctx_json(c).get("agent_id"@) == match opt_text(c.agent_id) {
            Some(a) => Some(Json::Str(a)),
            None => None::<Json>,
        },
{
    reveal_strlit("agent_id");
    reveal_strlit("tokens_remaining");
    reveal_strlit("time_ms_remaining");
    reveal_strlit("money_micro_usd_remaining");
    reveal_strlit("iterations_remaining");
    reveal_strlit("trace");
    lemma_callctx_entries(c);
    let es = callctx_json(c)->Object_0;
    let k: int = if c.agent_id is Some { 1 } else { 0 };
    assert(es[k].0[1] == 'o');
    assert(es[k + 1].0[1] == 'i');
    assert(es[k + 2].0[0] == 'm');
    assert(es[k + 3].0[0] == 'i');
    assert(es[k + 4].0[1] == 'r');
    assert("tokens_remaining"@[1] == 'o');
    assert("time_ms_remaining"@[1] == 'i');
    assert("iterations_remaining"@[0] == 'i');
    assert("trace"@[1] == 'r');
    if k == 1 {
        assert(es[0].0[0] == 'a');
        lemma_member_at(es, "agent_id"@, 0);
    } else {
        assert forall|i: int| 0 <= i < es.len() implies (#[trigger] es[i]).0 != "agent_id"@ by {
            assert(es[i].0[0] != 'a');
        }
        lemma_entries_get_none(es, "agent_id"@);
    }
    lemma_member_at(es, "tokens_remaining"@, k);
    lemma_member_at(es, "time_ms_remaining"@, k + 1);
    lemma_member_at(es, "iterations_remaining"@, k + 3);
    lemma_member_at(es, "trace"@, k + 4);
}

/// A written call context holds nothing under `key` when no key it writes
/// has the length of `key`, or the written key of that length differs in
/// its first letter.
proof fn lemma_callctx_lacks(c: CallCtxSettings<u64>, key: Seq<char>)
    requires
        key != "agent_id"@,
        key != "tokens_remaining"@,
        key != "time_ms_remaining"@,
        key != "money_micro_usd_remaining"@,
        key != "iterations_remaining"@,
        key != "trace"@,
    ensures
        callctx_json(c).get(key) is None,
{
    lemma_callctx_entries(c);
    let es = callctx_json(c)->Object_0;
    lemma_entries_get_none(es, key);
}

/// A call context written for Python guests and read back by the ctx reader
/// keeps its agent, its token, time and iteration budgets and its trace.
/// (The money budget is written in micro-dollars and read in dollars, so
/// the reader leaves it to its own keys.)
pub proof fn law_callctx_round_trip<M>(c: CallCtxSettings<u64>, e: CtxEntries<M>)
    requires
        ctx_entries_read(callctx_json(c), e),
    ensures
        opt_text(e.agent_id) == opt_text(c.agent_id),
        entries_tokens(e) == c.tokens,
        entries_time_ms(e) == c.time_ms,
        entries_iterations(e) == c.iterations,
        texts_of(entries_trace(e)) == texts_of(c.trace@),
{
    lemma_callctx_members(c);
    lemma_unused_key("tokens"@);
    lemma_callctx_lacks(c, "tokens"@);
    lemma_unused_key("token_budget"@);
    lemma_callctx_lacks(c, "token_budget"@);
    lemma_unused_key("time_ms"@);
    lemma_callctx_lacks(c, "time_ms"@);
    lemma_unused_key("time_budget_ms"@);
    lemma_callctx_lacks(c, "time_budget_ms"@);
    lemma_unused_key("iterations"@);
    lemma_callctx_lacks(c, "iterations"@);
    lemma_unused_key("iteration_budget"@);
    lemma_callctx_lacks(c, "iteration_budget"@);
    lemma_nat_json_u64(c.tokens as u64);
    lemma_nat_json_u64(c.time_ms);
    lemma_nat_json_u64(c.iterations as u64);
    let t = e.trace->Some_0;
    lemma_texts_json_injective(texts_of(c.trace@), texts_of(t@));
}

/// The budget keys a call context is not written with differ from those
/// it is written with.
proof fn lemma_unused_key(key: Seq<char>)
    requires
        key == "tokens"@ || key == "token_budget"@ || key == "time_ms"@ || key == "time_budget_ms"@
            || key == "iterations"@ || key == "iteration_budget"@,
    ensures
        key != "agent_id"@,
        key != "tokens_remaining"@,
        key != "time_ms_remaining"@,
        key != "money_micro_usd_remaining"@,
        key != "iterations_remaining"@,
        key != "trace"@,
{
    reveal_strlit("agent_id");
    reveal_strlit("tokens_remaining");
    reveal_strlit("time_ms_remaining");
    reveal_strlit("money_micro_usd_remaining");
    reveal_strlit("iterations_remaining");
    reveal_strlit("trace");
    reveal_strlit("tokens");
    reveal_strlit("token_budget");
    reveal_strlit("time_ms");
    reveal_strlit("time_budget_ms");
    reveal_strlit("iterations");
    reveal_strlit("iteration_budget");
    assert("tokens"@.len() == 6);
    assert("token_budget"@.len() == 12);
    assert("time_ms"@.len() == 7);
    assert("time_budget_ms"@.len() == 14);
    assert("iterations"@.len() == 10);
    assert("iteration_budget"@.len() == 16);
    assert("tokens_remaining"@.len() == 16);
    assert("iteration_budget"@[0] != "tokens_remaining"@[0]);
}

/// A budget shown to guests reads back as its two numbers.
pub proof fn law_budget_json(remaining: u32, reserved: u32)
    ensures
        budget_json(remaining, reserved).get("remaining"@)->Some_0.as_u64() == Some(remaining as u64),
        budget_json(remaining, reserved).get("reserved"@)->Some_0.as_u64() == Some(reserved as u64),
        budget_json(remaining, reserved).get("remaining"@) is Some,
        budget_json(remaining, reserved).get("reserved"@) is Some,
{
    reveal_strlit("remaining");
    reveal_strlit("reserved");
    let es = budget_json(remaining, reserved)->Object_0;
    assert(es[0].0[2] != "reserved"@[2]);
    lemma_member_at(es, "remaining"@, 0);
    lemma_member_at(es, "reserved"@, 1);
    lemma_nat_json_u64(remaining as u64);
    lemma_nat_json_u64(reserved as u64);
}

/// The harness state shown to guests reads back as its iteration, the
/// tokens left, the working memory and one entry per step of history.
pub proof fn law_state_json(iteration: u64, remaining_tokens: u32, working_memory: Json, history: Seq<PyStepEvent>)
    ensures
        state_json(iteration, remaining_tokens, working_memory, history).get("iteration"@)->Some_0.as_u64()
            == Some(iteration),
        state_json(iteration, remaining_tokens, working_memory, history).get("remaining_tokens"@)->Some_0.as_u64()
            == Some(remaining_tokens as u64),
        state_json(iteration, remaining_tokens, working_memory, history).get("working_memory"@) == Some(
            working_memory,
        ),
        state_json(iteration, remaining_tokens, working_memory, history).get("history"@) matches Some(
            Json::Array(hs),
        ) && hs.len() == history.len(),
{
    reveal_strlit("iteration");
    reveal_strlit("remaining_tokens");
    reveal_strlit("working_memory");
    reveal_strlit("history");
    let es = state_json(iteration, remaining_tokens, working_memory, history)->Object_0;
    assert(es[0].0[0] != "remaining_tokens"@[0]);
    assert(es[0].0[0] != "working_memory"@[0]);
    assert(es[1].0[0] != "working_memory"@[0]);
    assert(es[0].0[0] != "history"@[0]);
    assert(es[1].0[0] != "history"@[0]);
    assert(es[2].0[0] != "history"@[0]);
    lemma_member_at(es, "iteration"@, 0);
    lemma_member_at(es, "remaining_tokens"@, 1);
    lemma_member_at(es, "working_memory"@, 2);
    lemma_member_at(es, "history"@, 3);
    lemma_nat_json_u64(iteration);
    lemma_nat_json_u64(remaining_tokens as u64);
}

/// The context a guest tool is invoked with: the tool call's id, the
/// agent where there is one, the trace, and what is left of the token,
/// time and iteration budgets.
pub open spec fn invoke_ctx_json<M>(tool_call_id: Seq<char>, c: CallCtxSettings<M>) -> Json {
    Json::Object(
        seq![("tool_call_id"@, Json::Str(tool_call_id))] + optional_entry("agent_id"@, opt_text(c.agent_id))
            + seq![
            ("trace"@, texts_json(texts_of(c.trace@))),
            ("tokens_remaining"@, nat_json(c.tokens as nat)),
            ("time_ms_remaining"@, nat_json(c.time_ms as nat)),
            ("iterations_remaining"@, nat_json(c.iterations as nat)),
        ],
    )
}

/// The context a guest tool is invoked with reads back as the tool call's
/// id, the agent (where there is one), the trace and what is left of the
/// token, time and iteration budgets.
pub proof fn law_invoke_ctx_json<M>(tool_call_id: Seq<char>, c: CallCtxSettings<M>)
    ensures
        invoke_ctx_json(tool_call_id, c).get("tool_call_id"@) == Some(Json::Str(tool_call_id)),
        invoke_ctx_json(tool_call_id, c).get("agent_id"@) == match opt_text(c.agent_id) {
            Some(a) => Some(Json::Str(a)),
            None => None::<Json>,
        },
        invoke_ctx_json(tool_call_id, c).get("trace"@) == Some(texts_json(texts_of(c.trace@))),
        invoke_ctx_json(tool_call_id, c).get("tokens_remaining"@) == Some(nat_json(c.tokens as nat)),
        invoke_ctx_json(tool_call_id, c).get("time_ms_remaining"@) == Some(nat_json(c.time_ms as nat)),
        invoke_ctx_json(tool_call_id, c).get("iterations_remaining"@) == Some(nat_json(c.iterations as nat)),
        nat_json(c.tokens as nat).as_u64() == Some(c.tokens as u64),
        nat_json(c.time_ms as nat).as_u64() == Some(c.time_ms),
        nat_json(c.iterations as nat).as_u64() == Some(c.iterations as u64),
{
    reveal_strlit("tool_call_id");
    reveal_strlit("agent_id");
    reveal_strlit("trace");
    reveal_strlit("tokens_remaining");
    reveal_strlit("time_ms_remaining");
    reveal_strlit("iterations_remaining");
    let es = invoke_ctx_json(tool_call_id, c)->Object_0;
    let k: int = if c.agent_id is Some { 2 } else { 1 };
    assert(es.len() == k + 4);
    assert(es[0].0 == "tool_call_id"@);
    assert(es[k].0 == "trace"@);
    assert(es[k + 1].0 == "tokens_remaining"@);
    assert(es[k + 2].0 == "time_ms_remaining"@);
    assert(es[k + 3].0 == "iterations_remaining"@);
    assert(es[0].0[0] == 't' && es[0].0[1] == 'o' && es[0].0[2] == 'o');
    assert(es[k].0[1] == 'r');
    assert(es[k + 1].0[1] == 'o' && es[k + 1].0[2] == 'k');
    assert(es[k + 2].0[1] == 'i');
    assert(es[k + 3].0[0] == 'i');
    if k == 2 {
        assert(es[1].0 == "agent_id"@);
        assert(es[1].0[0] == 'a');
        lemma_member_at(es, "agent_id"@, 1);
    } else {
        assert forall|i: int| 0 <= i < es.len() implies (#[trigger] es[i]).0 != "agent_id"@ by {
            assert(es[i].0[0] != 'a');
        }
        lemma_entries_get_none(es, "agent_id"@);
    }
    lemma_member_at(es, "tool_call_id"@, 0);
    lemma_member_at(es, "trace"@, k);
    lemma_member_at(es, "tokens_remaining"@, k + 1);
    lemma_member_at(es, "time_ms_remaining"@, k + 2);
    lemma_member_at(es, "iterations_remaining"@, k + 3);
    lemma_nat_json_u64(c.tokens as u64);
    lemma_nat_json_u64(c.time_ms);
    lemma_nat_json_u64(c.iterations as u64);
}

pub fn invoke_ctx_to_json<M>(tool_call_id: &str, c: &CallCtxSettings<M>) -> (r: JsonValue)
    ensures
        r@ == invoke_ctx_json(tool_call_id@, *c),
{
    let mut es: Vec<(String, JsonValue)> = Vec::new();
    es.push((String::from_str("tool_call_id"), text_json(tool_call_id)));
    proof {
        lemma_entry_models_of(es@);
        assert(entry_models_of(es@) =~= seq![("tool_call_id"@, Json::Str(tool_call_id@))]);
    }
    push_optional(&mut es, "agent_id", &c.agent_id);
    let ghost before = es@;
    es.push((String::from_str("trace"), texts_to_json(&c.trace)));
    es.push((String::from_str("tokens_remaining"), u64_json(c.tokens as u64)));
    es.push((String::from_str("time_ms_remaining"), u64_json(c.time_ms)));
    es.push((String::from_str("iterations_remaining"), u64_json(c.iterations as u64)));
    proof {
        lemma_entry_models_of(before);
        lemma_entry_models_of(es@);
        assert(entry_models_of(es@) =~= invoke_ctx_json(tool_call_id@, *c)->Object_0);
    }
    JsonValue::Object(es)
}

/// One step of a harness's history.
pub struct PyStepEvent {
    pub iteration: u64,
    pub outcome: String,
    pub timestamp_ms: i64,
}

/// The JSON of one step of history: `iteration`, `outcome`,
/// `timestamp_ms`.
pub open spec fn step_event_json(e: PyStepEvent) -> Json {
    Json::Object(
        seq![
            ("iteration"@, nat_json(e.iteration as nat)),
            ("outcome"@, Json::Str(e.outcome@)),
            ("timestamp_ms"@, Json::Number(int_text(e.timestamp_ms as int))),
        ],
    )
}

/// The harness state a guest loop or termination strategy receives:
/// `iteration`, `remaining_tokens`, `working_memory` and `history`.
pub open spec fn state_json(iteration: u64, remaining_tokens: u32, working_memory: Json, history: Seq<PyStepEvent>) -> Json {
    Json::Object(
        seq![
            ("iteration"@, nat_json(iteration as nat)),
            ("remaining_tokens"@, nat_json(remaining_tokens as nat)),
            ("working_memory"@, working_memory),
            ("history"@, Json::Array(history.map_values(|e: PyStepEvent| step_event_json(e)))),
        ],
    )
}

/// A harness's state as the host hands it to guests.
pub struct PyHarnessState {
    pub iteration: u64,
    pub remaining_tokens: u32,
    pub working_memory: JsonValue,
    pub history: Vec<PyStepEvent>,
}

/// The harness state a guest receives.
pub fn build_state_json(state: &PyHarnessState) -> (r: JsonValue)
    ensures
        r@ == state_json(state.iteration, state.remaining_tokens, state.working_memory@, state.history@),
{
    let iteration = state.iteration;
    let remaining_tokens = state.remaining_tokens;
    let working_memory = &state.working_memory;
    let history = &state.history;
    let mut hs: Vec<JsonValue> = Vec::new();
    let mut i: usize = 0;
    while i < history.len()
        invariant
            i <= history@.len(),
            hs@.len() == i,
            forall|j: int| 0 <= j < i ==> (#[trigger] hs@[j])@ == step_event_json(history@[j]),
        decreases history.len() - i,
    {
        let e = &history[i];
        let mut m: Vec<(String, JsonValue)> = Vec::new();
        m.push((String::from_str("iteration"), u64_json(e.iteration)));
        m.push((String::from_str("outcome"), JsonValue::Str(e.outcome.clone())));
        m.push(
            (String::from_str("timestamp_ms"), JsonValue::Number(JsonNumber { text: i64_string(e.timestamp_ms) })),
        );
        proof {
            lemma_entry_models_of(m@);
            assert(entry_models_of(m@) =~= step_event_json(history@[i as int])->Object_0);
        }
        hs.push(JsonValue::Object(m));
        i = i + 1;
    }
    proof {
        lemma_models_of(hs@);
        assert(models_of(hs@) =~= history@.map_values(|e: PyStepEvent| step_event_json(e)));
    }
    let mut es: Vec<(String, JsonValue)> = Vec::new();
    es.push((String::from_str("iteration"), u64_json(iteration)));
    es.push((String::from_str("remaining_tokens"), u64_json(remaining_tokens as u64)));
    es.push((String::from_str("working_memory"), working_memory.deep_clone()));
    es.push((String::from_str("history"), JsonValue::Array(hs)));
    proof {
        lemma_entry_models_of(es@);
        assert(entry_models_of(es@) =~= state_json(iteration, remaining_tokens, working_memory@, history@)->Object_0);
    }
    JsonValue::Object(es)
}

} // verus!

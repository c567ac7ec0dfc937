//! Call contexts handed from Python: which budgets a ctx dict sets and the
//! plentiful defaults for the rest.

use vstd::prelude::*;

use crate::text::opt_text;


verus! {

/// Tokens of a call context that sets none.
pub const DEFAULT_CTX_TOKENS: u32 = 1_000_000;

/// Milliseconds of a call context that sets none (one hour).
pub const DEFAULT_CTX_TIME_MS: u64 = 3_600_000;

/// Iterations of a call context that sets none.
pub const DEFAULT_CTX_ITERATIONS: u32 = 1_000;

/// What a ctx dict holds under each key it may use, already converted;
/// `None` where the key is missing or holds `None`. The money budget is
/// in whatever form the caller keeps amounts of money.
pub struct CtxEntries<M> {
    pub agent_id: Option<String>,
    pub tokens_remaining: Option<u32>,
    pub tokens: Option<u32>,
    pub token_budget: Option<u32>,
    pub time_ms_remaining: Option<u64>,
    pub time_ms: Option<u64>,
    pub time_budget_ms: Option<u64>,
    pub money_usd: Option<M>,
    pub money_budget_usd: Option<M>,
    pub iterations_remaining: Option<u32>,
    pub iterations: Option<u32>,
    pub iteration_budget: Option<u32>,
    pub trace: Option<Vec<String>>,
}

/// The ctx argument of a call from Python.
pub enum CtxInput<M> {
    /// No ctx, or `None`.
    Absent,
    /// Something other than a dict.
    NotADict,
    /// A dict, with what it holds.
    Dict(CtxEntries<M>),
}

/// The budgets and identity of one call.
pub struct CallCtxSettings<M> {
    pub agent_id: Option<String>,
    pub tokens: u32,
    pub time_ms: u64,
    pub money: M,
    pub iterations: u32,
    pub trace: Vec<String>,
}

/// Why a ctx argument is refused.
#[derive(Debug, PartialEq, Eq, Structural)]
pub enum CtxError {
    /// "ctx must be a dict or None".
    NotADict,
}

/// Of two keys for one budget, the later one wins; the default stands
/// where neither is set.
pub open spec fn later_or<A>(first: Option<A>, second: Option<A>, default: A) -> A {
    match second {
        Some(x) => x,
        None => match first {
            Some(x) => x,
            None => default,
        },
    }
}

/// The tokens a ctx dict sets: `token_budget`, else `tokens`, else
/// `tokens_remaining`, else the default.
pub open spec fn entries_tokens<M>(e: CtxEntries<M>) -> u32 {
    later_or(e.tokens, e.token_budget, later_or(None, e.tokens_remaining, DEFAULT_CTX_TOKENS))
}

/// The milliseconds a ctx dict sets: `time_budget_ms`, else `time_ms`,
/// else `time_ms_remaining`, else the default.
pub open spec fn entries_time_ms<M>(e: CtxEntries<M>) -> u64 {
    later_or(e.time_ms, e.time_budget_ms, later_or(None, e.time_ms_remaining, DEFAULT_CTX_TIME_MS))
}

/// The iterations a ctx dict sets: `iteration_budget`, else `iterations`,
/// else `iterations_remaining`, else the default.
pub open spec fn entries_iterations<M>(e: CtxEntries<M>) -> u32 {
    later_or(e.iterations, e.iteration_budget, later_or(None, e.iterations_remaining, DEFAULT_CTX_ITERATIONS))
}

/// The trace a ctx dict sets, empty where it sets none.
pub open spec fn entries_trace<M>(e: CtxEntries<M>) -> Seq<String> {
    match e.trace {
        Some(t) => t@,
        None => Seq::empty(),
    }
}

fn pick<A>(first: Option<A>, second: Option<A>, default: A) -> (r: A)
    ensures
        r == later_or(first, second, default),
{
    match second {
        Some(x) => x,
        None => match first {
            Some(x) => x,
            None => default,
        },
    }
}

/// Builds a call context from Python's ctx argument: no ctx gives every
/// default; a dict sets what it holds (for each budget the keys
/// `tokens_remaining` / `tokens` / `token_budget`, `time_ms_remaining` /
/// `time_ms` / `time_budget_ms`, `money_usd` / `money_budget_usd`,
/// `iterations_remaining` / `iterations` / `iteration_budget`, the later key
/// of each group winning, plus `agent_id` and `trace`); anything else is
/// refused. The `*_remaining` keys are those a context is written back to
/// Python with, so a written context reads back as itself.
pub fn callctx_from_pydict<M>(ctx: CtxInput<M>, default_money: M) -> (r: Result<CallCtxSettings<M>, CtxError>)
    ensures
        match ctx {
            CtxInput::Absent => r matches Ok(c) && c.agent_id is None && c.tokens == DEFAULT_CTX_TOKENS
                && c.time_ms == DEFAULT_CTX_TIME_MS && c.money == default_money && c.iterations
                == DEFAULT_CTX_ITERATIONS && c.trace@.len() == 0,
            CtxInput::NotADict => r == Err::<CallCtxSettings<M>, CtxError>(CtxError::NotADict),
            CtxInput::Dict(e) => r matches Ok(c) && opt_text(c.agent_id) == opt_text(e.agent_id)
                && c.tokens == entries_tokens(e) && c.time_ms == entries_time_ms(e) && c.money
                == later_or(e.money_usd, e.money_budget_usd, default_money) && c.iterations
                == entries_iterations(e) && c.trace@ == entries_trace(e),
        },
{
    match ctx {
        CtxInput::Absent => Ok(
            CallCtxSettings {
                agent_id: None,
                tokens: DEFAULT_CTX_TOKENS,
                time_ms: DEFAULT_CTX_TIME_MS,
                money: default_money,
                iterations: DEFAULT_CTX_ITERATIONS,
                trace: Vec::new(),
            },
        ),
        CtxInput::NotADict => Err(CtxError::NotADict),
        CtxInput::Dict(e) => {
            let trace = match e.trace {
                Some(t) => t,
                None => Vec::new(),
            };
            let tokens = pick(None, e.tokens_remaining, DEFAULT_CTX_TOKENS);
            let time_ms = pick(None, e.time_ms_remaining, DEFAULT_CTX_TIME_MS);
            let iterations = pick(None, e.iterations_remaining, DEFAULT_CTX_ITERATIONS);
            Ok(
                CallCtxSettings {
                    agent_id: e.agent_id,
                    tokens: pick(e.tokens, e.token_budget, tokens),
                    time_ms: pick(e.time_ms, e.time_budget_ms, time_ms),
                    money: pick(e.money_usd, e.money_budget_usd, default_money),
                    iterations: pick(e.iterations, e.iteration_budget, iterations),
                    trace,
                },
            )
        },
    }
}

/// Each key of a ctx dict sets its budget: the budget key wins, then the
/// plain key, then the `*_remaining` key, and with none of them the
/// default stands; the agent, the money and the trace are the dict's own.
pub proof fn law_ctx_keys_set_budgets<M>(e: CtxEntries<M>, default_money: M)
    ensures
        DEFAULT_CTX_TOKENS == 1_000_000 && DEFAULT_CTX_TIME_MS == 3_600_000 && DEFAULT_CTX_ITERATIONS
            == 1_000,
        e.token_budget is Some ==> entries_tokens(e) == e.token_budget->Some_0,
        e.token_budget is None && e.tokens is Some ==> entries_tokens(e) == e.tokens->Some_0,
        e.token_budget is None && e.tokens is None && e.tokens_remaining is Some
            ==> entries_tokens(e) == e.tokens_remaining->Some_0,
        e.token_budget is None && e.tokens is None && e.tokens_remaining is None ==> entries_tokens(e)
            == 1_000_000,
        e.time_budget_ms is Some ==> entries_time_ms(e) == e.time_budget_ms->Some_0,
        e.time_budget_ms is None && e.time_ms is Some ==> entries_time_ms(e) == e.time_ms->Some_0,
        e.time_budget_ms is None && e.time_ms is None && e.time_ms_remaining is Some
            ==> entries_time_ms(e) == e.time_ms_remaining->Some_0,
        e.time_budget_ms is None && e.time_ms is None && e.time_ms_remaining is None ==> entries_time_ms(e)
            == 3_600_000,
        e.iteration_budget is Some ==> entries_iterations(e) == e.iteration_budget->Some_0,
        e.iteration_budget is None && e.iterations is Some ==> entries_iterations(e) == e.iterations->Some_0,
        e.iteration_budget is None && e.iterations is None && e.iterations_remaining is Some
            ==> entries_iterations(e) == e.iterations_remaining->Some_0,
        e.iteration_budget is None && e.iterations is None && e.iterations_remaining is None
            ==> entries_iterations(e) == 1_000,
        e.money_budget_usd is Some ==> later_or(e.money_usd, e.money_budget_usd, default_money)
            == e.money_budget_usd->Some_0,
        e.money_budget_usd is None && e.money_usd is Some ==> later_or(
            e.money_usd,
            e.money_budget_usd,
            default_money,
        ) == e.money_usd->Some_0,
        e.money_budget_usd is None && e.money_usd is None ==> later_or(
            e.money_usd,
            e.money_budget_usd,
            default_money,
        ) == default_money,
        e.trace is Some ==> entries_trace(e) == e.trace->Some_0@,
        e.trace is None ==> entries_trace(e).len() == 0,
{
}

/// The context of one step of a loop driven by a callable: the tokens the
/// harness has left, an hour, the given money, and one more iteration
/// than the harness has run.
pub fn callable_loop_ctx<M>(iteration: u64, remaining_tokens: u32, money: M) -> (r: CallCtxSettings<M>)
    requires
        (iteration as u32) < u32::MAX,
    ensures
        r.agent_id is None,
        r.tokens == remaining_tokens,
        r.time_ms == DEFAULT_CTX_TIME_MS,
        r.money == money,
        r.iterations == (iteration as u32) + 1,
        r.trace@.len() == 0,
{
    let it = iteration as u32;
    CallCtxSettings {
        agent_id: None,
        tokens: remaining_tokens,
        time_ms: DEFAULT_CTX_TIME_MS,
        money,
        iterations: it + 1,
        trace: Vec::new(),
    }
}

} // verus!

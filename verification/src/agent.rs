//! Agents built from guest strategies: the spec and its defaults, the
//! tool set drawn from registered tool factories, and the resolution of
//! everything an agent is built from.

use vstd::prelude::*;
use vstd::string::StringExecFns;

use crate::ctx::CallCtxSettings;
use crate::guest::{first_missing_tool, is_registered_tool, GuestError, GuestRegistry, ToolEntry};
use crate::inference::{build_inference_client, mock_reply_text, InferenceError, MockInferenceClient};
use crate::text::{all_digits, decimal_value};
use crate::version::{core_version_text, numeric_part, parse_version, reads_core_version, semver_parse, SemVersion, VersionError};

verus! {

/// Iterations an agent spec allows where none is given.
pub const DEFAULT_MAX_ITERATIONS: u32 = 8;

/// Tokens an agent spec allows where none is given.
pub const DEFAULT_TOKEN_BUDGET: u32 = 8000;

/// Milliseconds an agent spec allows where none is given.
pub const DEFAULT_TIME_BUDGET_MS: u64 = 60_000;

/// The static description of an agent. The money budget is in whatever
/// form the caller keeps amounts of money.
pub struct PyAgentSpec<M> {
    pub id: String,
    pub model: String,
    pub max_iterations: u32,
    pub token_budget: u32,
    pub time_budget_ms: u64,
    pub money_budget: M,
}

impl<M> PyAgentSpec<M> {
    pub fn new(
        id: String,
        model: String,
        max_iterations: u32,
        token_budget: u32,
        time_budget_ms: u64,
        money_budget: M,
    ) -> (r: Self)
        ensures
            r.id@ == id@,
            r.model@ == model@,
            r.max_iterations == max_iterations,
            r.token_budget == token_budget,
            r.time_budget_ms == time_budget_ms,
            r.money_budget == money_budget,
    {
        PyAgentSpec { id, model, max_iterations, token_budget, time_budget_ms, money_budget }
    }
}

/// The defaults of an agent spec: 8000 tokens, a minute and eight
/// iterations.
pub proof fn law_agent_defaults()
    ensures
        DEFAULT_TOKEN_BUDGET == 8000,
        DEFAULT_TIME_BUDGET_MS == 60_000,
        DEFAULT_MAX_ITERATIONS == 8,
{
}

/// The four budgets of one agent turn.
pub struct PyAgentBudgets<M> {
    pub tokens: u32,
    pub time_ms: u64,
    pub money: M,
    pub iterations: u32,
}

impl<M> PyAgentBudgets<M> {
    /// The default turn budgets: 8000 tokens, a minute, the given money,
    /// eight iterations.
    pub fn defaults(money: M) -> (r: Self)
        ensures
            r.tokens == DEFAULT_TOKEN_BUDGET,
            r.time_ms == DEFAULT_TIME_BUDGET_MS,
            r.money == money,
            r.iterations == DEFAULT_MAX_ITERATIONS,
    {
        PyAgentBudgets {
            tokens: DEFAULT_TOKEN_BUDGET,
            time_ms: DEFAULT_TIME_BUDGET_MS,
            money,
            iterations: DEFAULT_MAX_ITERATIONS,
        }
    }
}

/// The context of one agent turn: the agent's id, and the token, time,
/// money and iteration budgets of its spec.
pub fn turn_ctx<M: Copy>(spec: &PyAgentSpec<M>) -> (r: CallCtxSettings<M>)
    ensures
        r.agent_id matches Some(a) && a@ == spec.id@,
        r.tokens == spec.token_budget,
        r.time_ms == spec.time_budget_ms,
        r.money == spec.money_budget,
        r.iterations == spec.max_iterations,
        r.trace@.len() == 0,
{
    CallCtxSettings {
        agent_id: Some(spec.id.clone()),
        tokens: spec.token_budget,
        time_ms: spec.time_budget_ms,
        money: spec.money_budget,
        iterations: spec.max_iterations,
        trace: Vec::new(),
    }
}

/// A versioned set of guest tools.
pub struct GuestToolSet<'a, D, T> {
    pub id: String,
    pub version: SemVersion,
    pub tools: Vec<&'a ToolEntry<D, T>>,
}

/// Why a guest tool set cannot be built.
#[derive(Debug)]
pub enum ToolSetError {
    BadVersion { error: VersionError },
    /// No tool factory with a descriptor under `key`.
    NoTool { key: String },
}

/// Builds a tool set from registered tool factories: those named by
/// `keys`, in that order, or, without keys, every tool factory that was
/// registered with a descriptor.
pub fn build_guest_toolset<'a, D, T>(
    reg: &'a GuestRegistry<D, T>,
    id: String,
    version: &str,
    keys: Option<&Vec<String>>,
) -> (r: Result<GuestToolSet<'a, D, T>, ToolSetError>)
    requires
        reg.wf(),
    ensures
        semver_parse(version@) is None <==> r matches Err(ToolSetError::BadVersion { .. }),
        r matches Ok(ts) ==> ts.id@ == id@ && semver_parse(version@) == Some(ts.version@),
        r matches Ok(ts) ==> forall|i: int|
            0 <= i < ts.tools@.len() ==> is_registered_tool(reg@.tools, *#[trigger] ts.tools@[i]),
        r matches Ok(ts) ==> match keys {
            Some(ks) => ts.tools@.len() == ks@.len() && forall|i: int|
                0 <= i < ks@.len() ==> (#[trigger] ts.tools@[i]).key@ == ks@[i]@,
            None => ts.tools@.len() == reg@.tools.len() && forall|k: Seq<char>|
                reg@.tools.contains_key(k) ==> exists|i: int|
                    0 <= i < ts.tools@.len() && (#[trigger] ts.tools@[i]).key@ == k,
        },
        r matches Err(ToolSetError::NoTool { key }) ==> semver_parse(version@) is Some && match keys {
            Some(ks) => exists|j: int| first_missing_tool(reg@.tools, ks@, j) && key@ == ks@[j]@,
            None => false,
        },
        semver_parse(version@) is Some && (keys matches Some(ks) ==> forall|i: int|
            0 <= i < ks@.len() ==> reg@.tools.contains_key((#[trigger] ks@[i])@)) ==> r is Ok,
        reads_core_version(version@, semver_parse(version@)),
{
    let v = match parse_version(version) {
        Ok(v) => v,
        Err(e) => return Err(ToolSetError::BadVersion { error: e }),
    };
    match keys {
        Some(ks) => match reg.tools_for_keys(ks) {
            Ok(tools) => {
                assert(tools@.len() == ks@.len());
                assert(forall|i: int| 0 <= i < ks@.len() ==> (#[trigger] tools@[i]).key@ == ks@[i]@);
                Ok(GuestToolSet { id, version: v, tools })
            },
            Err(GuestError::NoTool { key }) => Err(ToolSetError::NoTool { key }),
            Err(GuestError::NotRegistered { key, .. }) => Err(ToolSetError::NoTool { key }),
        },
        None => {
            let tools = reg.all_tools();
            assert(tools@.len() == reg@.tools.len());
            assert(forall|k: Seq<char>| reg@.tools.contains_key(k) ==> exists|i: int|
                0 <= i < tools@.len() && (#[trigger] tools@[i]).key@ == k);
            Ok(GuestToolSet { id, version: v, tools })
        },
    }
}

/// Everything an agent is built from.
pub struct AgentPlan<'a, D, T> {
    pub instruction: &'a T,
    pub memory: &'a T,
    pub skill: &'a T,
    /// The guest tool set, or `None` for an agent without tools.
    pub tools: Option<GuestToolSet<'a, D, T>>,
    pub persona: Option<&'a T>,
    pub inference: MockInferenceClient,
}

/// Why an agent cannot be built.
#[derive(Debug)]
pub enum AgentPlanError {
    NoInstruction { key: String },
    NoMemory { key: String },
    NoSkill { key: String },
    ToolSet { tool_error: ToolSetError },
    NoPersona { key: String },
    Inference { inference_error: InferenceError },
}

/// Whether every one of `keys` names a tool factory with a descriptor.
pub open spec fn all_tools_known<D, T>(reg: GuestRegistry<D, T>, keys: Seq<String>) -> bool {
    forall|i: int| 0 <= i < keys.len() ==> reg@.tools.contains_key((#[trigger] keys[i])@)
}

/// Whether an agent is given tools: a non-empty list of keys.
pub open spec fn wants_tools(keys: Option<&Vec<String>>) -> bool {
    keys matches Some(ks) && ks@.len() > 0
}

/// Resolves what an agent is built from, in this order: the instruction,
/// memory and skill strategies (registry kinds `strategy:instruction`,
/// `strategy:memory`, `strategy:skill`); the tools, when keys are given,
/// as a tool set `agent:<id>` of version `0.0.0`; the persona, when its
/// key is not empty (kind `persona`); and the inference client. The first
/// part that cannot be had is the error.
pub fn plan_agent<'a, D, T>(
    reg: &'a GuestRegistry<D, T>,
    agent_id: &str,
    instruction_key: &str,
    memory_key: &str,
    skill_key: &str,
    persona_key: &str,
    tool_keys: Option<&Vec<String>>,
    inference_provider: &str,
) -> (r: Result<AgentPlan<'a, D, T>, AgentPlanError>)
    requires
        reg.wf(),
    ensures
        ({
            let has_i = reg@.guests.contains_key(("strategy:instruction"@, instruction_key@));
            let has_m = reg@.guests.contains_key(("strategy:memory"@, memory_key@));
            let has_s = reg@.guests.contains_key(("strategy:skill"@, skill_key@));
            let tools_ok = wants_tools(tool_keys) ==> all_tools_known(*reg, tool_keys->0@);
            let persona_ok = persona_key@.len() > 0 ==> reg@.guests.contains_key(("persona"@, persona_key@));
            match r {
                Err(AgentPlanError::NoInstruction { key }) => !has_i && key@ == instruction_key@,
                Err(AgentPlanError::NoMemory { key }) => has_i && !has_m && key@ == memory_key@,
                Err(AgentPlanError::NoSkill { key }) => has_i && has_m && !has_s && key@ == skill_key@,
                Err(AgentPlanError::ToolSet { tool_error }) => has_i && has_m && has_s && wants_tools(tool_keys)
                    && !tools_ok && match tool_error {
                    ToolSetError::BadVersion { .. } => false,
                    ToolSetError::NoTool { key } => exists|j: int|
                        first_missing_tool(reg@.tools, tool_keys->0@, j) && key@ == tool_keys->0@[j]@,
                },
                Err(AgentPlanError::NoPersona { key }) => has_i && has_m && has_s && tools_ok
                    && !persona_ok && key@ == persona_key@,
                Err(AgentPlanError::Inference { inference_error }) => has_i && has_m && has_s && tools_ok
                    && persona_ok && inference_provider@ != "mock"@ && match inference_error {
                    InferenceError::NotWired { provider } => provider@ == inference_provider@ && (
                    inference_provider@ == "anthropic"@ || inference_provider@ == "openai"@
                        || inference_provider@ == "gemini"@),
                    InferenceError::UnknownProvider { provider } => provider@ == inference_provider@
                        && !(inference_provider@ == "anthropic"@ || inference_provider@ == "openai"@
                        || inference_provider@ == "gemini"@),
                },
                Ok(p) => {
                    &&& has_i && has_m && has_s && tools_ok && persona_ok
                    &&& inference_provider@ == "mock"@
                    &&& *p.instruction == reg@.guests[("strategy:instruction"@, instruction_key@)]
                    &&& *p.memory == reg@.guests[("strategy:memory"@, memory_key@)]
                    &&& *p.skill == reg@.guests[("strategy:skill"@, skill_key@)]
                    &&& p.inference.spec_text() == mock_reply_text()
                    &&& match p.persona {
                        Some(t) => persona_key@.len() > 0 && *t == reg@.guests[("persona"@, persona_key@)],
                        None => persona_key@.len() == 0,
                    }
                    &&& match p.tools {
                        Some(ts) => {
                            &&& wants_tools(tool_keys)
                            &&& ts.id@ == "agent:"@ + agent_id@
                            &&& semver_parse("0.0.0"@) == Some(ts.version@)
                            &&& ts.version.major == 0 && ts.version.minor == 0 && ts.version.patch == 0
                            &&& ts.version.pre@.len() == 0 && ts.version.build@.len() == 0
                            &&& ts.tools@.len() == tool_keys->0@.len()
                            &&& forall|i: int|
                                0 <= i < ts.tools@.len() ==> is_registered_tool(
                                    reg@.tools,
                                    *#[trigger] ts.tools@[i],
                                ) && ts.tools@[i].key@ == tool_keys->0@[i]@
                        },
                        None => !wants_tools(tool_keys),
                    }
                },
            }
        }),
{
    let instruction = match reg.lookup("strategy:instruction", instruction_key) {
        Some(t) => t,
        None => return Err(AgentPlanError::NoInstruction { key: String::from_str(instruction_key) }),
    };
    let memory = match reg.lookup("strategy:memory", memory_key) {
        Some(t) => t,
        None => return Err(AgentPlanError::NoMemory { key: String::from_str(memory_key) }),
    };
    let skill = match reg.lookup("strategy:skill", skill_key) {
        Some(t) => t,
        None => return Err(AgentPlanError::NoSkill { key: String::from_str(skill_key) }),
    };
    let tools = match tool_keys {
        Some(ks) => if ks.len() == 0 {
            None
        } else {
            let mut id = String::from_str("agent:");
            id.append(agent_id);
            let built = build_guest_toolset(reg, id, "0.0.0", Some(ks));
            proof {
                let zero = seq!['0'];
                reveal_strlit("0.0.0");
                reveal_with_fuel(decimal_value, 2);
                assert(all_digits(zero));
                assert(decimal_value(zero) == 0);
                assert(numeric_part(zero));
                assert(core_version_text(zero, zero, zero) =~= "0.0.0"@);
            }
            match built {
                Ok(ts) => {
                    proof {
                        assert forall|i: int| 0 <= i < ks@.len() implies reg@.tools.contains_key(
                            (#[trigger] ks@[i])@,
                        ) by {
                            assert(is_registered_tool(reg@.tools, *ts.tools@[i]));
                        }
                    }
                    Some(ts)
                },
                Err(e) => return Err(AgentPlanError::ToolSet { tool_error: e }),
            }
        },
        None => None,
    };
    let persona = if persona_key.unicode_len() == 0 {
        None
    } else {
        match reg.lookup("persona", persona_key) {
            Some(t) => Some(t),
            None => return Err(AgentPlanError::NoPersona { key: String::from_str(persona_key) }),
        }
    };
    let inference = match build_inference_client(inference_provider) {
        Ok(c) => c,
        Err(e) => return Err(AgentPlanError::Inference { inference_error: e }),
    };
    Ok(AgentPlan { instruction, memory, skill, tools, persona, inference })
}

} // verus!

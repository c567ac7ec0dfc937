//! Organisation units (teams, departments, orgs) as Python assembles
//! them, how a unit reads the route of a request, and the namespaced
//! memory of an agent within an org.

use vstd::prelude::*;
use vstd::string::StringExecFns;

use crate::json::{Json, JsonValue};
use crate::memory::{MemoryNamespace, NamespaceModel};

verus! {

/// A unit of an organisation under construction: its children by label,
/// an optional routing strategy, a policy and the tool sets it may use.
/// `C` is the callable type of children, `R` the routing strategy, `P`
/// the policy.
pub struct OrgUnitBuilder<C, R, P> {
    pub id: String,
    pub label: String,
    pub children: Vec<(String, C)>,
    pub routing: Option<R>,
    pub policy: P,
    pub granted_toolsets: Vec<String>,
}

/// A team: the unit whose children are agents.
pub type PyTeam<C, R, P> = OrgUnitBuilder<C, R, P>;

/// A department: the unit whose children are teams.
pub type PyDepartment<C, R, P> = OrgUnitBuilder<C, R, P>;

impl<C, R, P> OrgUnitBuilder<C, R, P> {
    /// A unit with no children; its label is its id unless one is given.
    pub fn new(id: String, label: Option<String>, policy: P) -> (r: Self)
        ensures
            r.id@ == id@,
            r.label@ == match label {
                Some(l) => l@,
                None => id@,
            },
            r.children@.len() == 0,
            r.routing is None,
            r.policy == policy,
            r.granted_toolsets@.len() == 0,
    {
        let lbl = match label {
            Some(l) => l,
            None => id.clone(),
        };
        OrgUnitBuilder {
            id,
            label: lbl,
            children: Vec::new(),
            routing: None,
            policy,
            granted_toolsets: Vec::new(),
        }
    }

    /// Adds a child under `label`, after the others.
    pub fn add_agent(&mut self, label: String, child: C)
        ensures
            final(self).children@ == old(self).children@.push((label, child)),
            final(self).id == old(self).id,
            final(self).label == old(self).label,
            final(self).routing == old(self).routing,
            final(self).policy == old(self).policy,
            final(self).granted_toolsets == old(self).granted_toolsets,
    {
        self.children.push((label, child));
    }

    /// Sets the routing strategy.
    pub fn routing(&mut self, handle: R)
        ensures
            final(self).routing == Some(handle),
            final(self).children == old(self).children,
            final(self).id == old(self).id,
            final(self).label == old(self).label,
            final(self).policy == old(self).policy,
            final(self).granted_toolsets == old(self).granted_toolsets,
    {
        self.routing = Some(handle);
    }

    /// Sets the policy.
    pub fn policy(&mut self, policy: P)
        ensures
            final(self).policy == policy,
            final(self).children == old(self).children,
            final(self).id == old(self).id,
            final(self).label == old(self).label,
            final(self).routing == old(self).routing,
            final(self).granted_toolsets == old(self).granted_toolsets,
    {
        self.policy = policy;
    }

    /// Grants the unit a tool set.
    pub fn grant_toolset(&mut self, id: String)
        ensures
            final(self).granted_toolsets@ == old(self).granted_toolsets@.push(id),
            final(self).children == old(self).children,
            final(self).id == old(self).id,
            final(self).label == old(self).label,
            final(self).routing == old(self).routing,
            final(self).policy == old(self).policy,
    {
        self.granted_toolsets.push(id);
    }
}

/// A unit asked to dispatch without children.
#[derive(Debug)]
pub struct NoChildren {
    pub unit_label: String,
}

/// The route a request names: its string member `route`, or the empty
/// text.
pub open spec fn route_of(v: Json) -> Seq<char> {
    match v.get("route"@) {
        Some(Json::Str(s)) => s,
        _ => Seq::empty(),
    }
}

/// The route of a request is its string `route` member as it is, and the
/// empty text where it has none.
pub proof fn law_route_of(v: Json)
    ensures
        (v.get("route"@) matches Some(Json::Str(s)) ==> route_of(v) == s),
        !(v.get("route"@) matches Some(Json::Str(_))) ==> route_of(v).len() == 0,
{
}

/// What a unit does with a request before its routing strategy picks a
/// child: a unit without children refuses it; otherwise the route the
/// request names is handed to the strategy.
pub fn dispatch_route(v: &JsonValue, n_children: usize, unit_label: &str) -> (r: Result<String, NoChildren>)
    ensures
        match r {
            Ok(route) => n_children > 0 && route@ == route_of(v@),
            Err(e) => n_children == 0 && e.unit_label@ == unit_label@,
        },
{
    let route = match v.get("route") {
        Some(x) => match x.as_str() {
            Some(s) => s.clone(),
            None => String::new(),
        },
        None => String::new(),
    };
    if n_children == 0 {
        return Err(NoChildren { unit_label: String::from_str(unit_label) });
    }
    Ok(route)
}

/// The settings of an agent's memory namespaced within an org.
pub struct NamespacedMemoryPlan {
    pub org_id: String,
    pub agent_id: String,
    pub team_id: Option<String>,
    pub allow_team_write: bool,
}

/// A namespace other than an agent's.
#[derive(Debug)]
pub struct NotAgentNamespace;

/// The namespaced memory of the agent whose namespace is given; the org is
/// `default` unless named.
pub fn namespaced_memory_plan(
    namespace: MemoryNamespace,
    org_id: Option<String>,
    team_id: Option<String>,
    allow_team_write: bool,
) -> (r: Result<NamespacedMemoryPlan, NotAgentNamespace>)
    ensures
        match namespace@ {
            NamespaceModel::Agent(a) => r matches Ok(p) && p.agent_id@ == a && p.org_id@ == match org_id {
                Some(o) => o@,
                None => "default"@,
            } && p.team_id == team_id && p.allow_team_write == allow_team_write,
            _ => r is Err,
        },
{
    match namespace {
        MemoryNamespace::Agent(a) => {
            let org = match org_id {
                Some(o) => o,
                None => String::from_str("default"),
            };
            Ok(NamespacedMemoryPlan { org_id: org, agent_id: a, team_id, allow_team_write })
        },
        _ => Err(NotAgentNamespace),
    }
}

} // verus!

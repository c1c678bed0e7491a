//! `MCPGRoute`: soft multi-tenancy routing into a shared `MCPGGateway`. A
//! tenant team declares, from its own namespace, the tools it exposes
//! through a gateway that the platform team owns, the identity, policy and
//! audit chains for them, and per-tenant attributes.
use vstd::prelude::*;
use crate::clock::Timestamp;
use crate::conditions::Condition;
use crate::crd::{column, columns_view, defines_kind, definition, named_meta, CustomResourceDefinition, ObjectMeta};
use crate::ordered::{sorted_distinct, sorted_elements, string_views, str_views, strictly_sorted};
use crate::string_map::{contains_key, lookup, StrMap};

verus! {

/// The columns that `kubectl get` prints for routes.
pub open spec fn route_columns() -> Seq<(Seq<char>, Seq<char>, Seq<char>)> {
    seq![
        ("Gateway"@, "string"@, ".spec.gatewayRef.name"@),
        ("Tools"@, "integer"@, ".status.matchedTools"@),
        ("Bound"@, "string"@, ".status.conditions[?(@.type=='GatewayBound')].status"@),
        ("Ready"@, "string"@, ".status.conditions[?(@.type=='Ready')].status"@),
        ("Age"@, "date"@, ".metadata.creationTimestamp"@),
    ]
}

/// A route resource.
#[derive(Clone, Debug, Default, PartialEq)]
pub struct MCPGRoute {
    pub metadata: ObjectMeta,
    pub spec: MCPGRouteSpec,
    pub status: Option<MCPGRouteStatus>,
}

impl MCPGRoute {
    /// A route named `name` with `spec` and no status.
    pub fn new(name: &str, spec: MCPGRouteSpec) -> (r: MCPGRoute)
        ensures
            r.metadata.name matches Some(n) && n@ == name@,
            r.metadata.namespace is None,
            r.spec == spec,
            r.status is None,
    {
        MCPGRoute { metadata: named_meta(name), spec, status: None }
    }

    /// The definition the kind is served under.
    pub fn crd() -> (r: CustomResourceDefinition)
        ensures
            defines_kind(r, "MCPGRoute"@, "mcpgroutes"@, "mcpgr"@, true, route_columns()),
    {
        let columns = vec![
            column("Gateway", "string", ".spec.gatewayRef.name"),
            column("Tools", "integer", ".status.matchedTools"),
            column("Bound", "string", ".status.conditions[?(@.type=='GatewayBound')].status"),
            column("Ready", "string", ".status.conditions[?(@.type=='Ready')].status"),
            column("Age", "date", ".metadata.creationTimestamp"),
        ];
        assert(columns_view(columns@) =~= route_columns());
        definition("MCPGRoute", "mcpgroutes", "mcpgr", true, columns)
    }
}

/// A tenant's route into a shared gateway.
#[derive(Clone, Debug, Default, PartialEq, Eq)]
pub struct MCPGRouteSpec {
    /// The gateway the route attaches to, possibly in another namespace
    /// that lists this route's namespace as accepted.
    pub gateway_ref: GatewayRef,
    /// The tools the route exposes (the `match` field).
    pub match_: RouteMatch,
    /// Ordered identity-plugin ids; validated, not yet dispatched per
    /// route.
    pub identity_chain: Vec<String>,
    /// Ordered policy-engine plugin ids.
    pub policy_chain: Vec<String>,
    /// Ordered audit-sink plugin ids.
    pub audit_chain: Vec<String>,
    /// Per-tenant metadata; `tenant` is the identity attribute that the
    /// rendered tool-access rules key on.
    pub attributes: StrMap<String>,
}

/// Reference to the gateway a route attaches to.
#[derive(Clone, Debug, Default, PartialEq, Eq)]
pub struct GatewayRef {
    pub name: String,
    /// Defaults to the route's own namespace.
    pub namespace: Option<String>,
}

/// What a route selects: tool capability ids.
#[derive(Clone, Debug, Default, PartialEq, Eq)]
pub struct RouteMatch {
    pub tools: Vec<RouteToolRef>,
}

/// A single tool a route exposes.
#[derive(Clone, Debug, Default, PartialEq, Eq)]
pub struct RouteToolRef {
    /// Tool capability id, such as `orders.list`.
    pub id: String,
}

/// Observed state of a route.
#[derive(Clone, Debug, Default, PartialEq)]
pub struct MCPGRouteStatus {
    pub conditions: Vec<Condition>,
    pub observed_generation: Option<i64>,
    pub matched_tools: Option<i64>,
    /// `<namespace>/<name>` of the bound gateway.
    pub bound_gateway: Option<String>,
    pub last_reconcile_time: Option<Timestamp>,
}

/// The plugin ids named across the three chains, in chain order.
pub open spec fn chain_plugins(s: MCPGRouteSpec) -> Seq<Seq<char>> {
    string_views(s.identity_chain@) + string_views(s.policy_chain@) + string_views(s.audit_chain@)
}

/// Appends slices of each string of `v` to `out`.
fn push_all<'a>(out: &mut Vec<&'a str>, v: &'a Vec<String>)
    ensures
        str_views(final(out)@) == str_views(old(out)@) + string_views(v@),
{
    let ghost start = str_views(out@);
    let n = v.len();
    let mut i: usize = 0;
    while i < n
        invariant
            n == v@.len(),
            i <= n,
            str_views(out@) == start + string_views(v@).take(i as int),
        decreases n - i,
    {
        let ghost before = out@;
        out.push(v[i].as_str());
        proof {
            let sv = string_views(v@);
            let t = sv.take(i + 1);
            assert(str_views(before) == start + sv.take(i as int));
            assert(before.len() == start.len() + i);
            assert forall|j: int| 0 <= j < out@.len() implies #[trigger] str_views(out@)[j] == (
            start + t)[j] by {
                if j < start.len() {
                    assert(str_views(before)[j] == start[j]);
                } else if j < before.len() {
                    let k = j - start.len();
                    assert(str_views(before)[j] == sv.take(i as int)[k]);
                    assert(sv[k] == v@[k]@);
                } else {
                    assert(sv[i as int] == v@[i as int]@);
                }
            }
            assert(str_views(out@) =~= start + t);
        }
        i = i + 1;
    }
    assert(string_views(v@).take(n as int) =~= string_views(v@));
}

impl MCPGRouteSpec {
    /// The tenant the tools are scoped to: `attributes.tenant`, if set.
    pub fn tenant(&self) -> (r: Option<&str>)
        ensures
            r is Some <==> contains_key(self.attributes.model(), "tenant"@),
            r matches Some(t) ==> lookup(self.attributes.model(), "tenant"@) matches Some(v) && v@
                == t@,
    {
        match self.attributes.get("tenant") {
            Some(v) => Some(v.as_str()),
            None => None,
        }
    }

    /// The bound gateway's namespace: `gatewayRef.namespace`, or the
    /// route's own namespace when unset.
    pub fn gateway_namespace<'a>(&'a self, route_namespace: &'a str) -> (r: &'a str)
        ensures
            r@ == match self.gateway_ref.namespace {
                Some(n) => n@,
                None => route_namespace@,
            },
    {
        match &self.gateway_ref.namespace {
            Some(n) => n.as_str(),
            None => route_namespace,
        }
    }

    /// Every distinct plugin id named across the three chains, in
    /// increasing order.
    pub fn all_chain_plugins(&self) -> (r: Vec<&str>)
        ensures
            str_views(r@) == sorted_elements(chain_plugins(*self).to_set()),
            strictly_sorted(str_views(r@)),
            str_views(r@).to_set() == chain_plugins(*self).to_set(),
    {
        let mut all: Vec<&str> = Vec::new();
        assert(str_views(all@) =~= Seq::<Seq<char>>::empty());
        push_all(&mut all, &self.identity_chain);
        push_all(&mut all, &self.policy_chain);
        push_all(&mut all, &self.audit_chain);
        assert(str_views(all@) =~= chain_plugins(*self));
        sorted_distinct(&all)
    }
}

} // verus!

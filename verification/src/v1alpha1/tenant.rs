//! `MCPGTenant`: a declarative, cluster-scoped tenant boundary: the
//! namespaces a tenant owns exclusively, the cluster plugins its plugin
//! sets may reference, and quotas on the resources it may create.
use vstd::prelude::*;
use crate::clock::Timestamp;
use crate::conditions::Condition;
use crate::crd::{column, columns_view, defines_kind, definition, named_meta, CustomResourceDefinition, ObjectMeta};
use crate::ordered::{sorted_distinct, sorted_elements, string_views, str_views, strictly_sorted, to_owned_all};
use crate::text::{has_prefix, starts_with, str_eq};

verus! {

/// The columns that `kubectl get` prints for tenants.
pub open spec fn tenant_columns() -> Seq<(Seq<char>, Seq<char>, Seq<char>)> {
    seq![
        ("Namespaces"@, "integer"@, ".status.boundNamespaces[*]"@),
        ("Gateways"@, "integer"@, ".status.observed.gateways"@),
        ("Ready"@, "string"@, ".status.conditions[?(@.type=='Ready')].status"@),
        ("Age"@, "date"@, ".metadata.creationTimestamp"@),
    ]
}

/// A tenant resource.
#[derive(Clone, Debug, Default, PartialEq)]
pub struct MCPGTenant {
    pub metadata: ObjectMeta,
    pub spec: MCPGTenantSpec,
    pub status: Option<MCPGTenantStatus>,
}

impl MCPGTenant {
    /// A tenant named `name` with `spec` and no status.
    pub fn new(name: &str, spec: MCPGTenantSpec) -> (r: MCPGTenant)
        ensures
            r.metadata.name matches Some(n) && n@ == name@,
            r.metadata.namespace is None,
            r.spec == spec,
            r.status is None,
    {
        MCPGTenant { metadata: named_meta(name), spec, status: None }
    }

    /// The definition the kind is served under.
    pub fn crd() -> (r: CustomResourceDefinition)
        ensures
            defines_kind(r, "MCPGTenant"@, "mcpgtenants"@, "mcpgt"@, false, tenant_columns()),
    {
        let columns = vec![
            column("Namespaces", "integer", ".status.boundNamespaces[*]"),
            column("Gateways", "integer", ".status.observed.gateways"),
            column("Ready", "string", ".status.conditions[?(@.type=='Ready')].status"),
            column("Age", "date", ".metadata.creationTimestamp"),
        ];
        assert(columns_view(columns@) =~= tenant_columns());
        definition("MCPGTenant", "mcpgtenants", "mcpgt", false, columns)
    }
}

/// A tenant boundary over existing namespaces.
#[derive(Clone, Debug, Default, PartialEq, Eq)]
pub struct MCPGTenantSpec {
    /// Namespaces this tenant owns, each by at most one tenant.
    pub namespaces: Vec<String>,
    /// Plugin allowlist: empty denies everything; `{name: "*"}` admits
    /// any plugin.
    pub allowed_plugins: Vec<AllowedPlugin>,
    pub quotas: Option<TenantQuotas>,
    /// Identity attribute stamped into the tenant's gateway rules.
    pub identity_attribute: Option<TenantIdentityAttribute>,
}

/// One allowlist matcher: by name or id, or by image prefix.
#[derive(Clone, Debug, Default, PartialEq, Eq)]
pub struct AllowedPlugin {
    /// A plugin resource name or capability id; `*` matches any plugin.
    pub name: Option<String>,
    /// Matches plugins whose resolved OCI image starts with it.
    pub registry_prefix: Option<String>,
}

/// Hard caps on the resources a tenant may create; unset is unlimited.
#[derive(Clone, Debug, Default, PartialEq, Eq)]
pub struct TenantQuotas {
    pub max_gateways: Option<i64>,
    pub max_plugin_sets: Option<i64>,
    pub max_routes: Option<i64>,
    pub max_replicas_per_gateway: Option<i64>,
}

/// The identity attribute of a tenant's gateway rules.
#[derive(Clone, Debug, Default, PartialEq, Eq)]
pub struct TenantIdentityAttribute {
    pub key: String,
    pub value: String,
}

/// Observed state of a tenant.
#[derive(Clone, Debug, Default, PartialEq)]
pub struct MCPGTenantStatus {
    pub conditions: Vec<Condition>,
    pub observed_generation: Option<i64>,
    pub bound_namespaces: Vec<String>,
    pub observed: Option<TenantObservedCounts>,
    pub last_reconcile_time: Option<Timestamp>,
}

/// Resource counts across a tenant's namespaces.
#[derive(Clone, Debug, Default, PartialEq, Eq)]
pub struct TenantObservedCounts {
    pub gateways: i64,
    pub plugin_sets: i64,
    pub routes: i64,
}

/// The characters of an optional string slice.
pub open spec fn opt_view(o: Option<&str>) -> Option<Seq<char>> {
    match o {
        Some(s) => Some(s@),
        None => None,
    }
}

/// An allowlist entry admits a plugin: its name is `*`, the resource name
/// or the capability id; or it has a non-empty prefix that the resolved
/// image starts with.
pub open spec fn admits(a: AllowedPlugin, resource_name: Seq<char>, plugin_id: Seq<char>, image: Option<Seq<char>>) -> bool {
    let by_name = match a.name {
        Some(n) => n@ == "*"@ || n@ == resource_name || n@ == plugin_id,
        None => false,
    };
    let by_prefix = match (a.registry_prefix, image) {
        (Some(p), Some(i)) => p@.len() > 0 && has_prefix(i, p@),
        _ => false,
    };
    by_name || by_prefix
}

/// Some allowlist entry of the tenant admits the plugin.
pub open spec fn tenant_admits(s: MCPGTenantSpec, resource_name: Seq<char>, plugin_id: Seq<char>, image: Option<Seq<char>>) -> bool {
    exists|i: int| 0 <= i < s.allowed_plugins@.len() && admits(#[trigger] s.allowed_plugins@[i], resource_name, plugin_id, image)
}

/// The namespaces owned by both tenants.
pub open spec fn shared_namespaces(a: MCPGTenantSpec, b: MCPGTenantSpec) -> Set<Seq<char>> {
    string_views(a.namespaces@).to_set().intersect(string_views(b.namespaces@).to_set())
}

impl AllowedPlugin {
    /// True when this matcher admits a plugin with the given resource
    /// name, capability id and (optional, resolved) OCI image.
    pub fn matches(&self, resource_name: &str, plugin_id: &str, image: Option<&str>) -> (r: bool)
        ensures
            r == admits(*self, resource_name@, plugin_id@, opt_view(image)),
    {
        proof {
            reveal_strlit("*");
        }
        if let Some(name) = &self.name {
            if str_eq(name.as_str(), "*") || str_eq(name.as_str(), resource_name) || str_eq(
                name.as_str(),
                plugin_id,
            ) {
                return true;
            }
        }
        if let Some(prefix) = &self.registry_prefix {
            if let Some(img) = image {
                if prefix.as_str().unicode_len() != 0 && starts_with(img, prefix.as_str()) {
                    return true;
                }
            }
        }
        false
    }
}

impl MCPGTenantSpec {
    /// True when `namespace` is one of the tenant's namespaces.
    pub fn owns_namespace(&self, namespace: &str) -> (r: bool)
        ensures
            r == string_views(self.namespaces@).contains(namespace@),
    {
        let n = self.namespaces.len();
        let mut i: usize = 0;
        while i < n && !str_eq(self.namespaces[i].as_str(), namespace)
            invariant
                n == self.namespaces@.len(),
                i <= n,
                forall|j: int| 0 <= j < i ==> self.namespaces@[j]@ != namespace@,
            decreases n - i,
        {
            i = i + 1;
        }
        proof {
            let v = string_views(self.namespaces@);
            if i < n {
                assert(v[i as int] == namespace@);
            } else {
                assert forall|j: int| 0 <= j < v.len() implies v[j] != namespace@ by {
                    assert(v[j] == self.namespaces@[j]@);
                }
            }
        }
        i < n
    }

    /// The namespaces owned by both this tenant and `other`, sorted and
    /// without duplicates: empty exactly when the two do not overlap.
    pub fn overlapping_namespaces(&self, other: &MCPGTenantSpec) -> (r: Vec<String>)
        ensures
            string_views(r@) == sorted_elements(shared_namespaces(*self, *other)),
            strictly_sorted(string_views(r@)),
            string_views(r@).to_set() == shared_namespaces(*self, *other),
            r@.len() == 0 <==> shared_namespaces(*self, *other) == Set::<Seq<char>>::empty(),
    {
        let ghost mine = string_views(self.namespaces@);
        let ghost theirs = string_views(other.namespaces@).to_set();
        let mut shared: Vec<&str> = Vec::new();
        let n = self.namespaces.len();
        let mut i: usize = 0;
        proof {
            assert(str_views(shared@).to_set() =~= mine.take(0).to_set().intersect(theirs));
        }
        while i < n
            invariant
                n == self.namespaces@.len(),
                mine == string_views(self.namespaces@),
                theirs == string_views(other.namespaces@).to_set(),
                i <= n,
                str_views(shared@).to_set() == mine.take(i as int).to_set().intersect(theirs),
            decreases n - i,
        {
            let ghost before = str_views(shared@);
            let name = self.namespaces[i].as_str();
            let keep = other.owns_namespace(name);
            if keep {
                shared.push(name);
                proof {
                    assert(str_views(shared@) =~= before.push(name@));
                    before.lemma_push_to_set_commute(name@);
                }
            }
            proof {
                let t = mine.take(i + 1);
                assert(t =~= mine.take(i as int).push(mine[i as int]));
                mine.take(i as int).lemma_push_to_set_commute(mine[i as int]);
                assert(mine[i as int] == name@);
                assert(string_views(other.namespaces@).contains(name@) == theirs.contains(name@));
                assert(str_views(shared@).to_set() =~= t.to_set().intersect(theirs));
            }
            i = i + 1;
        }
        proof {
            assert(mine.take(n as int) =~= mine);
        }
        let sorted = sorted_distinct(&shared);
        let r = to_owned_all(&sorted);
        proof {
            if r@.len() == 0 {
                assert(string_views(r@).to_set() =~= Set::<Seq<char>>::empty());
            } else {
                assert(string_views(r@).to_set().contains(string_views(r@)[0]));
            }
        }
        r
    }

    /// Whether the allowlist admits a plugin, by resource name, capability
    /// id and (optional, resolved) image. An empty allowlist denies
    /// everything.
    pub fn plugin_allowed(&self, resource_name: &str, plugin_id: &str, image: Option<&str>) -> (r:
        bool)
        ensures
            r == tenant_admits(*self, resource_name@, plugin_id@, opt_view(image)),
    {
        let n = self.allowed_plugins.len();
        let mut i: usize = 0;
        while i < n && !self.allowed_plugins[i].matches(resource_name, plugin_id, image)
            invariant
                n == self.allowed_plugins@.len(),
                i <= n,
                forall|j: int|
                    0 <= j < i ==> !admits(
                        #[trigger] self.allowed_plugins@[j],
                        resource_name@,
                        plugin_id@,
                        opt_view(image),
                    ),
            decreases n - i,
        {
            i = i + 1;
        }
        i < n
    }
}

/// An empty allowlist denies every plugin.
pub proof fn lemma_empty_allowlist_denies(s: MCPGTenantSpec, resource_name: Seq<char>, plugin_id: Seq<char>, image: Option<Seq<char>>)
    requires
        s.allowed_plugins@.len() == 0,
    ensures
        !tenant_admits(s, resource_name, plugin_id, image),
{
}

/// An allowlist with a `*` entry admits every plugin.
pub proof fn lemma_wildcard_admits_any(s: MCPGTenantSpec, k: int, resource_name: Seq<char>, plugin_id: Seq<char>, image: Option<Seq<char>>)
    requires
        0 <= k < s.allowed_plugins@.len(),
        s.allowed_plugins@[k].name matches Some(n) && n@ == "*"@,
    ensures
        tenant_admits(s, resource_name, plugin_id, image),
{
    assert(admits(s.allowed_plugins@[k], resource_name, plugin_id, image));
}

/// Overlap is symmetric: two tenants share the same namespaces whichever
/// is asked.
pub proof fn lemma_overlap_symmetric(a: MCPGTenantSpec, b: MCPGTenantSpec)
    ensures
        sorted_elements(shared_namespaces(a, b)) == sorted_elements(shared_namespaces(b, a)),
{
    assert(shared_namespaces(a, b) =~= shared_namespaces(b, a));
}

/// A tenant overlaps another exactly in the namespaces both own.
pub proof fn lemma_overlap_members(a: MCPGTenantSpec, b: MCPGTenantSpec, ns: Seq<char>)
    ensures
        shared_namespaces(a, b).contains(ns) <==> (string_views(a.namespaces@).contains(ns)
            && string_views(b.namespaces@).contains(ns)),
{
}

/// An entry admits any plugin whose resolved image starts with its
/// non-empty registry prefix, whatever its name says.
pub proof fn lemma_prefix_admits_whatever_the_name(
    a: AllowedPlugin,
    resource_name: Seq<char>,
    plugin_id: Seq<char>,
    image: Seq<char>,
)
    requires
        a.registry_prefix is Some,
        a.registry_prefix->0@.len() > 0,
        has_prefix(image, a.registry_prefix->0@),
    ensures
        admits(a, resource_name, plugin_id, Some(image)),
{
}

/// An entry named `*`, the resource name or the capability id admits the
/// plugin, whatever its registry prefix and the image.
pub proof fn lemma_name_admits_whatever_the_prefix(
    a: AllowedPlugin,
    resource_name: Seq<char>,
    plugin_id: Seq<char>,
    image: Option<Seq<char>>,
)
    requires
        a.name is Some,
        a.name->0@ == "*"@ || a.name->0@ == resource_name || a.name->0@ == plugin_id,
    ensures
        admits(a, resource_name, plugin_id, image),
{
}

/// An entry admits nothing else: when its name matches neither `*`, the
/// resource name nor the capability id, and its prefix is unset, empty or
/// not a prefix of the image (or there is no image), it does not admit.
pub proof fn lemma_entry_admits_only_by_name_or_prefix(
    a: AllowedPlugin,
    resource_name: Seq<char>,
    plugin_id: Seq<char>,
    image: Option<Seq<char>>,
)
    requires
        a.name is Some ==> !(a.name->0@ == "*"@ || a.name->0@ == resource_name || a.name->0@
            == plugin_id),
        a.registry_prefix is Some && image is Some ==> !(a.registry_prefix->0@.len() > 0
            && has_prefix(image->0, a.registry_prefix->0@)),
    ensures
        !admits(a, resource_name, plugin_id, image),
{
}

/// A tenant admits a plugin that any one of its entries admits by registry
/// prefix, whatever the other entries and that entry's name say.
pub proof fn lemma_tenant_admits_by_prefix(
    s: MCPGTenantSpec,
    k: int,
    resource_name: Seq<char>,
    plugin_id: Seq<char>,
    image: Seq<char>,
)
    requires
        0 <= k < s.allowed_plugins@.len(),
        s.allowed_plugins@[k].registry_prefix is Some,
        s.allowed_plugins@[k].registry_prefix->0@.len() > 0,
        has_prefix(image, s.allowed_plugins@[k].registry_prefix->0@),
    ensures
        tenant_admits(s, resource_name, plugin_id, Some(image)),
{
    lemma_prefix_admits_whatever_the_name(s.allowed_plugins@[k], resource_name, plugin_id, image);
}

} // verus!

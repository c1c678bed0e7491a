//! `MCPGPluginSet`: a namespaced bundle of `MCPGPlugin` references with
//! per-plugin runtime configuration.
use vstd::prelude::*;
use crate::clock::Timestamp;
use crate::conditions::Condition;
use crate::crd::{column, columns_view, defines_kind, definition, named_meta, CustomResourceDefinition, ObjectMeta};
use crate::json::JsonValue;
use crate::string_map::StrMap;
use crate::v1alpha1::gateway::LocalObjectReference;

verus! {

/// The columns that `kubectl get` prints for plugin sets.
pub open spec fn plugin_set_columns() -> Seq<(Seq<char>, Seq<char>, Seq<char>)> {
    seq![
        ("Plugins"@, "integer"@, ".status.resolvedEntries"@),
        ("Ready"@, "string"@, ".status.conditions[?(@.type=='Ready')].status"@),
        ("Age"@, "date"@, ".metadata.creationTimestamp"@),
    ]
}

/// A plugin set resource.
#[derive(Clone, Debug, Default, PartialEq)]
pub struct MCPGPluginSet {
    pub metadata: ObjectMeta,
    pub spec: MCPGPluginSetSpec,
    pub status: Option<MCPGPluginSetStatus>,
}

impl MCPGPluginSet {
    /// A plugin set named `name` with `spec` and no status.
    pub fn new(name: &str, spec: MCPGPluginSetSpec) -> (r: MCPGPluginSet)
        ensures
            r.metadata.name matches Some(n) && n@ == name@,
            r.metadata.namespace is None,
            r.spec == spec,
            r.status is None,
    {
        MCPGPluginSet { metadata: named_meta(name), spec, status: None }
    }

    /// The definition the kind is served under.
    pub fn crd() -> (r: CustomResourceDefinition)
        ensures
            defines_kind(r, "MCPGPluginSet"@, "mcpgpluginsets"@, "mcpgps"@, true, plugin_set_columns()),
    {
        let columns = vec![
            column("Plugins", "integer", ".status.resolvedEntries"),
            column("Ready", "string", ".status.conditions[?(@.type=='Ready')].status"),
            column("Age", "date", ".metadata.creationTimestamp"),
        ];
        assert(columns_view(columns@) =~= plugin_set_columns());
        definition("MCPGPluginSet", "mcpgpluginsets", "mcpgps", true, columns)
    }
}

/// The plugins a set installs, in the order the gateway sees them.
#[derive(Clone, Debug, Default, PartialEq)]
pub struct MCPGPluginSetSpec {
    pub entries: Vec<MCPGPluginSetEntry>,
    /// Capability grants keyed by plugin id.
    pub capability_grants: StrMap<Vec<String>>,
}

/// One plugin of a set.
#[derive(Clone, Debug, Default, PartialEq)]
pub struct MCPGPluginSetEntry {
    pub id: String,
    /// A cluster-scoped `MCPGPlugin`.
    pub plugin_ref: LocalObjectReference,
    /// Disabled entries show in status but are not rendered;
    /// `default_true()` when absent.
    pub enabled: bool,
    /// Enforced, or shadow mode (decisions mapped to allow);
    /// `default_true()` when absent.
    pub enforce: bool,
    /// Plugin runtime configuration, passed through verbatim.
    pub config: Option<JsonValue>,
}

/// The value of a flag that defaults to on.
pub fn default_true() -> (r: bool)
    ensures
        r,
{
    true
}

/// A capability grant as a plugin id and its capabilities.
#[derive(Clone, Debug, Default, PartialEq, Eq)]
pub struct CapabilityGrant {
    pub plugin_id: String,
    pub capabilities: Vec<String>,
}

/// Observed state of a plugin set.
#[derive(Clone, Debug, Default, PartialEq)]
pub struct MCPGPluginSetStatus {
    pub conditions: Vec<Condition>,
    pub observed_generation: Option<i64>,
    pub resolved_entries: Option<i64>,
    pub total_entries: Option<i64>,
    pub resolved_hash: Option<String>,
    pub failed_entries: Vec<FailedEntry>,
    pub last_reconcile_time: Option<Timestamp>,
}

/// One entry that failed to resolve.
#[derive(Clone, Debug, Default, PartialEq, Eq)]
pub struct FailedEntry {
    pub id: String,
    /// `PluginNotFound`, `PluginNotReady`, `PluginRevoked`,
    /// `PluginIdMismatch` or `ArtefactSecretMissing`.
    pub reason: String,
    pub message: String,
}

} // verus!

//! `MCPGGateway`: a namespaced gateway deployment, with references into the
//! plugin lifecycle (`pluginSetRef`, `revocationListRef`) and the
//! coordination backend (`clusterRef`).
use vstd::prelude::*;
use crate::clock::Timestamp;
use crate::conditions::Condition;
use crate::crd::{column, columns_view, defines_kind, definition, named_meta, CustomResourceDefinition, ObjectMeta};
use crate::json::JsonValue;
use crate::string_map::StrMap;

verus! {

/// The columns that `kubectl get` prints for gateways.
pub open spec fn gateway_columns() -> Seq<(Seq<char>, Seq<char>, Seq<char>)> {
    seq![
        ("Image"@, "string"@, ".spec.image.tag"@),
        ("Replicas"@, "integer"@, ".spec.replicas"@),
        ("Plugins"@, "string"@, ".spec.pluginSetRef.name"@),
        ("Ready"@, "string"@, ".status.conditions[?(@.type=='Ready')].status"@),
        ("Available"@, "string"@, ".status.conditions[?(@.type=='Available')].status"@),
        ("Age"@, "date"@, ".metadata.creationTimestamp"@),
    ]
}

/// A gateway resource.
#[derive(Clone, Debug, Default, PartialEq)]
pub struct MCPGGateway {
    pub metadata: ObjectMeta,
    pub spec: MCPGGatewaySpec,
    pub status: Option<MCPGGatewayStatus>,
}

impl MCPGGateway {
    /// A gateway named `name` with `spec` and no status.
    pub fn new(name: &str, spec: MCPGGatewaySpec) -> (r: MCPGGateway)
        ensures
            r.metadata.name matches Some(n) && n@ == name@,
            r.metadata.namespace is None,
            r.spec == spec,
            r.status is None,
    {
        MCPGGateway { metadata: named_meta(name), spec, status: None }
    }

    /// The definition the kind is served under.
    pub fn crd() -> (r: CustomResourceDefinition)
        ensures
            defines_kind(
                r,
                "MCPGGateway"@,
                "mcpggateways"@,
                "mcpgw"@,
                true,
                gateway_columns(),
            ),
    {
        let columns = vec![
            column("Image", "string", ".spec.image.tag"),
            column("Replicas", "integer", ".spec.replicas"),
            column("Plugins", "string", ".spec.pluginSetRef.name"),
            column("Ready", "string", ".status.conditions[?(@.type=='Ready')].status"),
            column("Available", "string", ".status.conditions[?(@.type=='Available')].status"),
            column("Age", "date", ".metadata.creationTimestamp"),
        ];
        assert(columns_view(columns@) =~= gateway_columns());
        definition("MCPGGateway", "mcpggateways", "mcpgw", true, columns)
    }
}

/// Desired state of a gateway. The operator renders it into a Deployment,
/// Service and ConfigMap (and optionally an Ingress, NetworkPolicy,
/// PodDisruptionBudget and ServiceMonitor).
#[derive(Clone, Debug, Default, PartialEq)]
pub struct MCPGGatewaySpec {
    pub image: GatewayImage,
    /// Replica count; defaults to `default_replicas()` when absent.
    pub replicas: i32,
    /// The gateway's own boot configuration, carried verbatim.
    pub config: JsonValue,
    pub resources: Option<GatewayResourceRequirements>,
    pub service: Option<GatewayService>,
    pub ingress: Option<GatewayIngress>,
    pub image_pull_secrets: Vec<LocalObjectReference>,
    pub workload_identity: Option<GatewayWorkloadIdentity>,
    pub scheduling: Option<GatewayScheduling>,
    pub probes: Option<GatewayProbes>,
    pub network_policy: Option<GatewayNetworkPolicy>,
    pub pod_disruption_budget: Option<PodDisruptionBudgetSpec>,
    pub autoscaling: Option<HorizontalAutoscaler>,
    pub monitoring: Option<GatewayMonitoring>,
    pub pod_annotations: StrMap<String>,
    pub pod_labels: StrMap<String>,
    /// A `MCPGPluginSet` in the same namespace.
    pub plugin_set_ref: Option<PluginSetRef>,
    /// A cluster-scoped `MCPGRevocationList`; the operator's
    /// `cluster-default` list when unset.
    pub revocation_list_ref: Option<RevocationListRef>,
    /// A cluster-scoped `MCPGCluster`; the in-process `single_node`
    /// coordinator when unset.
    pub cluster_ref: Option<ClusterRef>,
    /// Namespaces permitted to attach an `MCPGRoute` to this gateway.
    pub accepted_route_namespaces: Vec<String>,
    /// Managed-fleet routing and identity; absent for self-hosting.
    pub cloud: Option<GatewayCloud>,
}

/// The replica count of a gateway whose spec gives none.
pub fn default_replicas() -> (r: i32)
    ensures
        r == 1,
{
    1
}

/// Managed-fleet routing and identity (one host per instance).
#[derive(Clone, Debug, Default, PartialEq, Eq)]
pub struct GatewayCloud {
    pub org_slug: String,
    pub instance_slug: String,
    pub external_url: String,
    pub custom_domains: Vec<String>,
}

/// Same-namespace reference to a `MCPGPluginSet`.
#[derive(Clone, Debug, Default, PartialEq, Eq)]
pub struct PluginSetRef {
    pub name: String,
}

/// Reference to a cluster-scoped `MCPGRevocationList`.
#[derive(Clone, Debug, Default, PartialEq, Eq)]
pub struct RevocationListRef {
    pub name: String,
}

/// Reference to a cluster-scoped `MCPGCluster`.
#[derive(Clone, Debug, Default, PartialEq, Eq)]
pub struct ClusterRef {
    pub name: String,
}

/// A name, with a namespace that defaults to the referring resource's.
#[derive(Clone, Debug, Default, PartialEq, Eq)]
pub struct NamespacedReference {
    pub name: String,
    pub namespace: Option<String>,
}

/// Container image coordinates of the gateway pod.
#[derive(Clone, Debug, Default, PartialEq, Eq)]
pub struct GatewayImage {
    pub repository: Option<String>,
    pub tag: Option<String>,
    pub pull_policy: Option<String>,
}

/// Resource requests and limits, as in `core/v1.ResourceRequirements`.
#[derive(Clone, Debug, Default, PartialEq, Eq)]
pub struct GatewayResourceRequirements {
    pub requests: StrMap<String>,
    pub limits: StrMap<String>,
}

#[derive(Clone, Debug, Default, PartialEq, Eq)]
pub struct GatewayService {
    pub type_: Option<String>,
    pub port: Option<i32>,
    pub annotations: StrMap<String>,
}

#[derive(Clone, Debug, Default, PartialEq, Eq)]
pub struct GatewayIngress {
    pub ingress_class_name: String,
    pub hosts: Vec<GatewayIngressHost>,
    pub tls: Vec<GatewayIngressTls>,
    pub annotations: StrMap<String>,
}

#[derive(Clone, Debug, Default, PartialEq, Eq)]
pub struct GatewayIngressHost {
    pub host: String,
    pub paths: Vec<GatewayIngressPath>,
}

#[derive(Clone, Debug, Default, PartialEq, Eq)]
pub struct GatewayIngressPath {
    pub path: String,
    pub path_type: String,
}

#[derive(Clone, Debug, Default, PartialEq, Eq)]
pub struct GatewayIngressTls {
    pub hosts: Vec<String>,
    pub secret_name: String,
}

/// One cloud provider's workload identity; setting several is an
/// admission error.
#[derive(Clone, Debug, Default, PartialEq, Eq)]
pub struct GatewayWorkloadIdentity {
    pub aws: Option<AwsWorkloadIdentity>,
    pub gcp: Option<GcpWorkloadIdentity>,
    pub azure: Option<AzureWorkloadIdentity>,
    pub spiffe: Option<SpiffeWorkloadIdentity>,
}

#[derive(Clone, Debug, Default, PartialEq, Eq)]
pub struct AwsWorkloadIdentity {
    pub iam_role_arn: String,
}

#[derive(Clone, Debug, Default, PartialEq, Eq)]
pub struct GcpWorkloadIdentity {
    pub google_service_account: String,
}

#[derive(Clone, Debug, Default, PartialEq, Eq)]
pub struct AzureWorkloadIdentity {
    pub client_id: String,
}

#[derive(Clone, Debug, Default, PartialEq, Eq)]
pub struct SpiffeWorkloadIdentity {
    pub trust_domain: String,
    pub svid: String,
}

/// Pod scheduling fields, passed through to the `PodSpec`.
#[derive(Clone, Debug, Default, PartialEq, Eq)]
pub struct GatewayScheduling {
    pub node_selector: StrMap<String>,
    pub tolerations: Vec<JsonValue>,
    pub affinity: Option<JsonValue>,
    pub topology_spread_constraints: Vec<TopologySpread>,
    pub priority_class_name: Option<String>,
    pub termination_grace_period_seconds: Option<i64>,
}

#[derive(Clone, Debug, Default, PartialEq, Eq)]
pub struct TopologySpread {
    pub max_skew: i32,
    pub topology_key: String,
    pub when_unsatisfiable: String,
    pub label_selector_match_labels: StrMap<String>,
}

/// Per-probe overrides; chart defaults when unset.
#[derive(Clone, Debug, Default, PartialEq, Eq)]
pub struct GatewayProbes {
    pub liveness: Option<GatewayProbe>,
    pub readiness: Option<GatewayProbe>,
    pub startup: Option<GatewayProbe>,
}

#[derive(Clone, Debug, Default, PartialEq, Eq)]
pub struct GatewayProbe {
    pub path: Option<String>,
    pub initial_delay_seconds: Option<i32>,
    pub period_seconds: Option<i32>,
    pub timeout_seconds: Option<i32>,
    pub failure_threshold: Option<i32>,
    pub success_threshold: Option<i32>,
}

/// Whether the operator renders a NetworkPolicy, with extra peers.
#[derive(Clone, Debug, Default, PartialEq, Eq)]
pub struct GatewayNetworkPolicy {
    pub enabled: bool,
    pub extra_ingress_from: Vec<JsonValue>,
    pub extra_egress_to: Vec<JsonValue>,
}

/// `policy/v1.PodDisruptionBudgetSpec`; thresholds are int-or-string.
#[derive(Clone, Debug, Default, PartialEq, Eq)]
pub struct PodDisruptionBudgetSpec {
    pub enabled: bool,
    pub min_available: Option<JsonValue>,
    pub max_unavailable: Option<JsonValue>,
}

/// An optional HorizontalPodAutoscaler.
#[derive(Clone, Debug, Default, PartialEq, Eq)]
pub struct HorizontalAutoscaler {
    pub enabled: bool,
    pub min_replicas: Option<i32>,
    pub max_replicas: Option<i32>,
    pub metrics: Vec<HorizontalAutoscalerMetric>,
}

#[derive(Clone, Debug, Default, PartialEq, Eq)]
pub struct HorizontalAutoscalerMetric {
    pub type_: String,
    pub resource: Option<JsonValue>,
    pub pods: Option<JsonValue>,
    pub object: Option<JsonValue>,
    pub external: Option<JsonValue>,
}

/// ServiceMonitor and PrometheusRule rendering.
#[derive(Clone, Debug, Default, PartialEq, Eq)]
pub struct GatewayMonitoring {
    pub service_monitor: Option<ServiceMonitorSpec>,
    pub prometheus_rule: Option<PrometheusRuleSpec>,
}

#[derive(Clone, Debug, Default, PartialEq, Eq)]
pub struct ServiceMonitorSpec {
    pub enabled: bool,
    pub interval: Option<String>,
    pub scrape_timeout: Option<String>,
    pub labels: StrMap<String>,
}

#[derive(Clone, Debug, Default, PartialEq, Eq)]
pub struct PrometheusRuleSpec {
    pub enabled: bool,
    pub severity: Option<String>,
}

/// Same shape as `core/v1.LocalObjectReference`.
#[derive(Clone, Debug, Default, PartialEq, Eq)]
pub struct LocalObjectReference {
    pub name: String,
}

/// Observed state of a gateway.
#[derive(Clone, Debug, Default, PartialEq)]
pub struct MCPGGatewayStatus {
    pub conditions: Vec<Condition>,
    pub observed_generation: Option<i64>,
    pub replicas: Option<i32>,
    pub ready_replicas: Option<i32>,
    pub updated_replicas: Option<i32>,
    pub available_replicas: Option<i32>,
    /// SHA-256 of the rendered config.
    pub config_hash: Option<String>,
    pub plugin_set_hash: Option<String>,
    pub revocation_list_hash: Option<String>,
    pub last_reconcile_time: Option<Timestamp>,
}

} // verus!

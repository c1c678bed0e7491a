//! `v1alpha1`, the only version of the API; pre-1.0 it evolves in place.
pub mod cluster;
pub mod gateway;
pub mod plugin;
pub mod plugin_mirror;
pub mod plugin_set;
pub mod revocation_list;
pub mod route;
pub mod server;
pub mod tenant;

pub use gateway::{
    AwsWorkloadIdentity, AzureWorkloadIdentity, ClusterRef, GatewayCloud, GatewayImage,
    GatewayIngress, GatewayIngressHost, GatewayIngressPath, GatewayIngressTls, GatewayMonitoring,
    GatewayNetworkPolicy, GatewayProbe, GatewayProbes, GatewayResourceRequirements,
    GatewayScheduling, GatewayService, GatewayWorkloadIdentity, GcpWorkloadIdentity,
    HorizontalAutoscaler, HorizontalAutoscalerMetric, LocalObjectReference, MCPGGateway,
    MCPGGatewaySpec, MCPGGatewayStatus, NamespacedReference, PluginSetRef, PodDisruptionBudgetSpec,
    PrometheusRuleSpec, RevocationListRef, ServiceMonitorSpec, SpiffeWorkloadIdentity,
    TopologySpread,
};

pub use cluster::{
    ClusterBackend, ClusterCredentialRef, MCPGCluster, MCPGClusterSpec, MCPGClusterStatus,
};

pub use plugin::{
    CosignIdentity, MCPGPlugin, MCPGPluginSpec, MCPGPluginStatus, OciImageRef, PluginTrust,
    SigningKeyRef, SlsaProvenance,
};

pub use plugin_set::{
    CapabilityGrant, FailedEntry, MCPGPluginSet, MCPGPluginSetEntry, MCPGPluginSetSpec,
    MCPGPluginSetStatus,
};

pub use plugin_mirror::{
    MCPGPluginMirror, MCPGPluginMirrorSpec, MCPGPluginMirrorStatus, MirrorAuth, MirrorEndpoint,
    MirrorRewrite, MirrorSecretRef, MirrorService, MirrorUpstream,
};

pub use revocation_list::{
    MCPGRevocationList, MCPGRevocationListSpec, MCPGRevocationListStatus, RevocationEntry,
};

pub use route::{GatewayRef, MCPGRoute, MCPGRouteSpec, MCPGRouteStatus, RouteMatch, RouteToolRef};

pub use server::{
    MCPGServer, MCPGServerSpec, MCPGServerStatus, ServerFederate, ServerGatewayRef, ServerVerify,
};

pub use tenant::{
    AllowedPlugin, MCPGTenant, MCPGTenantSpec, MCPGTenantStatus, TenantIdentityAttribute,
    TenantObservedCounts, TenantQuotas,
};

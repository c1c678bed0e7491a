//! `MCPGPlugin`: a cluster-scoped, signed plugin artefact and the trust
//! policy under which the operator verifies it.
use vstd::prelude::*;
use crate::clock::Timestamp;
use crate::conditions::Condition;
use crate::crd::{column, columns_view, defines_kind, definition, named_meta, CustomResourceDefinition, ObjectMeta};
use crate::v1alpha1::gateway::LocalObjectReference;

verus! {

/// The columns that `kubectl get` prints for plugins.
pub open spec fn plugin_columns() -> Seq<(Seq<char>, Seq<char>, Seq<char>)> {
    seq![
        ("Plugin"@, "string"@, ".spec.pluginId"@),
        ("Version"@, "string"@, ".spec.version"@),
        ("Class"@, "string"@, ".spec.pluginClass"@),
        ("Verified"@, "string"@, ".status.conditions[?(@.type=='Verified')].status"@),
        ("Revoked"@, "boolean"@, ".status.revokedBySha"@),
        ("Age"@, "date"@, ".metadata.creationTimestamp"@),
    ]
}

/// A plugin resource.
#[derive(Clone, Debug, Default, PartialEq)]
pub struct MCPGPlugin {
    pub metadata: ObjectMeta,
    pub spec: MCPGPluginSpec,
    pub status: Option<MCPGPluginStatus>,
}

impl MCPGPlugin {
    /// A plugin named `name` with `spec` and no status.
    pub fn new(name: &str, spec: MCPGPluginSpec) -> (r: MCPGPlugin)
        ensures
            r.metadata.name matches Some(n) && n@ == name@,
            r.metadata.namespace is None,
            r.spec == spec,
            r.status is None,
    {
        MCPGPlugin { metadata: named_meta(name), spec, status: None }
    }

    /// The definition the kind is served under.
    pub fn crd() -> (r: CustomResourceDefinition)
        ensures
            defines_kind(r, "MCPGPlugin"@, "mcpgplugins"@, "mcpgp"@, false, plugin_columns()),
    {
        let columns = vec![
            column("Plugin", "string", ".spec.pluginId"),
            column("Version", "string", ".spec.version"),
            column("Class", "string", ".spec.pluginClass"),
            column("Verified", "string", ".status.conditions[?(@.type=='Verified')].status"),
            column("Revoked", "boolean", ".status.revokedBySha"),
            column("Age", "date", ".metadata.creationTimestamp"),
        ];
        assert(columns_view(columns@) =~= plugin_columns());
        definition("MCPGPlugin", "mcpgplugins", "mcpgp", false, columns)
    }
}

/// A signed plugin artefact and its trust policy.
#[derive(Clone, Debug, Default, PartialEq, Eq)]
pub struct MCPGPluginSpec {
    /// Plugin id; must equal the descriptor's id.
    pub plugin_id: String,
    pub version: String,
    /// Advisory routing hint, re-checked against the descriptor.
    pub plugin_class: String,
    pub oci: OciImageRef,
    pub trust: PluginTrust,
}

/// Where the operator pulls a plugin from.
#[derive(Clone, Debug, Default, PartialEq, Eq)]
pub struct OciImageRef {
    /// Full OCI reference, by tag or pinned by digest.
    pub image: String,
    pub pull_secret_ref: Option<LocalObjectReference>,
    /// Pull through an in-cluster `MCPGPluginMirror`.
    pub mirror_ref: Option<LocalObjectReference>,
}

/// Three-layer, fail-closed trust policy: Ed25519 signature (mandatory),
/// cosign keyless identity, SLSA provenance.
#[derive(Clone, Debug, Default, PartialEq, Eq)]
pub struct PluginTrust {
    pub signing_key_ref: SigningKeyRef,
    pub cosign_identity: Option<CosignIdentity>,
    pub slsa_provenance: Option<SlsaProvenance>,
}

/// The Secret holding the Ed25519 public key.
#[derive(Clone, Debug, Default, PartialEq, Eq)]
pub struct SigningKeyRef {
    pub secret_name: String,
    /// Key within the Secret; `default_signing_key_field()` when absent.
    pub key: String,
}

/// The Secret key of the signing key when none is given.
pub fn default_signing_key_field() -> (r: String)
    ensures
        r@ == "release.pub"@,
{
    "release.pub".to_owned()
}

/// Cosign keyless trust anchor: an anchored regular expression over the
/// certificate subject and the exact OIDC issuer.
#[derive(Clone, Debug, Default, PartialEq, Eq)]
pub struct CosignIdentity {
    pub certificate_identity_regexp: String,
    pub oidc_issuer: String,
}

/// SLSA in-toto attestation pin.
#[derive(Clone, Debug, Default, PartialEq, Eq)]
pub struct SlsaProvenance {
    pub config_map_name: String,
    pub source_uri: String,
    pub source_tag: String,
}

/// Observed state of a plugin; an absent flag means "not yet evaluated".
#[derive(Clone, Debug, Default, PartialEq)]
pub struct MCPGPluginStatus {
    pub conditions: Vec<Condition>,
    pub observed_generation: Option<i64>,
    /// SHA-256 of the verified artefact bytes (lower-case hex).
    pub resolved_digest: Option<String>,
    pub signature_valid: Option<bool>,
    pub cosign_verified: Option<bool>,
    pub slsa_verified: Option<bool>,
    /// The resolved digest is on the cluster revocation list.
    pub revoked_by_sha: Option<bool>,
    pub artefact_secret_name: Option<String>,
    pub pulled_at: Option<Timestamp>,
    pub last_reconcile_time: Option<Timestamp>,
}

} // verus!

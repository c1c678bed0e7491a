//! `MCPGCluster`: a cluster-scoped binding to a coordination backend
//! (Redis, NATS JetStream, or the in-process `single_node` default) that
//! gateways bind to through `spec.clusterRef`, and the `cluster:` block of
//! gateway configuration that it renders.
use vstd::prelude::*;
use crate::clock::Timestamp;
use crate::conditions::Condition;
use crate::crd::{column, columns_view, defines_kind, definition, named_meta, CustomResourceDefinition, ObjectMeta};
use crate::json::{array_model, has_key, json_as_bool, keys_distinct, lemma_obj_get_at, lemma_obj_insert, json_get, obj_get, obj_insert, Json, JsonMap, JsonValue};
use crate::text::{concat2, decimal, decimal_string, has_non_white_space, starts_with, trim_start_white_space, has_prefix, is_white_space, trim_start_by, white_space};
use crate::v1alpha1::gateway::{GatewayResourceRequirements, LocalObjectReference};

verus! {

/// Env var (from the generated coordination Secret) whose value is the
/// state-encryption key.
pub const MANAGED_STATE_KEY_ENV: &'static str = "MCPG_CLUSTER_STATE_KEY";

/// Env var carrying the NATS auth token.
pub const MANAGED_NATS_TOKEN_ENV: &'static str = "MCPG_CLUSTER_NATS_TOKEN";

/// Env var carrying the coordinator CA certificate PEM.
pub const MANAGED_NATS_CA_ENV: &'static str = "MCPG_CLUSTER_NATS_CA";

/// Downward-API env var with the pod name, the per-replica node id.
pub const MANAGED_NODE_ID_ENV: &'static str = "POD_NAME";

/// Pinned default NATS server image of a managed coordinator.
pub const DEFAULT_MANAGED_NATS_IMAGE: &'static str = "nats:2.10.25-alpine";

/// Default JetStream file-store volume size of a managed coordinator.
pub const DEFAULT_MANAGED_STORAGE_SIZE: &'static str = "10Gi";

/// The NATS client port that the provisioned Service exposes.
pub const MANAGED_NATS_CLIENT_PORT: i32 = 4222;

/// Client Service name of a managed coordinator.
pub fn managed_nats_service_name(cluster: &str) -> (r: String)
    ensures
        r@ == cluster@ + "-nats"@,
{
    concat2(cluster, "-nats")
}

/// Headless Service name (StatefulSet network identity).
pub fn managed_nats_headless_service_name(cluster: &str) -> (r: String)
    ensures
        r@ == cluster@ + "-nats-headless"@,
{
    concat2(cluster, "-nats-headless")
}

/// StatefulSet name of a managed coordinator.
pub fn managed_nats_statefulset_name(cluster: &str) -> (r: String)
    ensures
        r@ == cluster@ + "-nats"@,
{
    concat2(cluster, "-nats")
}

/// ConfigMap name holding the rendered `nats-server.conf`.
pub fn managed_nats_config_name(cluster: &str) -> (r: String)
    ensures
        r@ == cluster@ + "-nats-config"@,
{
    concat2(cluster, "-nats-config")
}

/// Name of the cert-manager `Certificate` and of its TLS Secret.
pub fn managed_nats_tls_secret_name(cluster: &str) -> (r: String)
    ensures
        r@ == cluster@ + "-nats-tls"@,
{
    concat2(cluster, "-nats-tls")
}

/// Name of the generated coordination Secret.
pub fn managed_coordination_secret_name(cluster: &str) -> (r: String)
    ensures
        r@ == cluster@ + "-coordination"@,
{
    concat2(cluster, "-coordination")
}

/// Supported coordination backends.
#[derive(Clone, Copy, Debug, Default, PartialEq, Eq, Structural)]
pub enum ClusterBackend {
    /// In-process coordinator, for single-replica gateways only.
    #[default]
    SingleNode,
    /// Redis / Valkey.
    Redis,
    /// NATS JetStream.
    Nats,
}

/// The `kind:` string of a backend in the gateway's configuration.
pub open spec fn backend_config_kind(b: ClusterBackend) -> Seq<char> {
    match b {
        ClusterBackend::SingleNode => "single_node"@,
        ClusterBackend::Redis => "redis"@,
        ClusterBackend::Nats => "nats"@,
    }
}

/// The plugin a gateway must load for a backend; none for `single_node`.
pub open spec fn backend_plugin_id(b: ClusterBackend) -> Option<Seq<char>> {
    match b {
        ClusterBackend::SingleNode => None,
        ClusterBackend::Redis => Some("dev.mcpg.cluster.redis"@),
        ClusterBackend::Nats => Some("dev.mcpg.cluster.nats"@),
    }
}

impl ClusterBackend {
    /// The `kind:` string the gateway's configuration expects.
    pub fn config_kind(self) -> (r: &'static str)
        ensures
            r@ == backend_config_kind(self),
    {
        match self {
            ClusterBackend::SingleNode => "single_node",
            ClusterBackend::Redis => "redis",
            ClusterBackend::Nats => "nats",
        }
    }

    /// The cluster plugin id the gateway must load, or none for the
    /// built-in `single_node` coordinator.
    pub fn plugin_id(self) -> (r: Option<&'static str>)
        ensures
            r is Some <==> backend_plugin_id(self) is Some,
            r matches Some(p) ==> backend_plugin_id(self) == Some(p@),
    {
        match self {
            ClusterBackend::SingleNode => None,
            ClusterBackend::Redis => Some("dev.mcpg.cluster.redis"),
            ClusterBackend::Nats => Some("dev.mcpg.cluster.nats"),
        }
    }

    /// True for the in-process default.
    pub fn is_single_node(self) -> (r: bool)
        ensures
            r == (self is SingleNode),
    {
        match self {
            ClusterBackend::SingleNode => true,
            _ => false,
        }
    }
}

/// The columns that `kubectl get` prints for clusters.
pub open spec fn cluster_columns() -> Seq<(Seq<char>, Seq<char>, Seq<char>)> {
    seq![
        ("Backend"@, "string"@, ".spec.backend"@),
        ("Gateways"@, "integer"@, ".status.boundGateways"@),
        ("Ready"@, "string"@, ".status.conditions[?(@.type=='Ready')].status"@),
        ("Age"@, "date"@, ".metadata.creationTimestamp"@),
    ]
}

/// A coordination-backend binding resource.
#[derive(Clone, Debug, Default, PartialEq)]
pub struct MCPGCluster {
    pub metadata: ObjectMeta,
    pub spec: MCPGClusterSpec,
    pub status: Option<MCPGClusterStatus>,
}

impl MCPGCluster {
    /// A cluster named `name` with `spec` and no status.
    pub fn new(name: &str, spec: MCPGClusterSpec) -> (r: MCPGCluster)
        ensures
            r.metadata.name matches Some(n) && n@ == name@,
            r.metadata.namespace is None,
            r.spec == spec,
            r.status is None,
    {
        MCPGCluster { metadata: named_meta(name), spec, status: None }
    }

    /// The definition the kind is served under.
    pub fn crd() -> (r: CustomResourceDefinition)
        ensures
            defines_kind(r, "MCPGCluster"@, "mcpgclusters"@, "mcpgc"@, false, cluster_columns()),
    {
        let columns = vec![
            column("Backend", "string", ".spec.backend"),
            column("Gateways", "integer", ".status.boundGateways"),
            column("Ready", "string", ".status.conditions[?(@.type=='Ready')].status"),
            column("Age", "date", ".metadata.creationTimestamp"),
        ];
        assert(columns_view(columns@) =~= cluster_columns());
        definition("MCPGCluster", "mcpgclusters", "mcpgc", false, columns)
    }
}

/// Desired state of a coordination-backend binding.
#[derive(Clone, Debug, Default, PartialEq)]
pub struct MCPGClusterSpec {
    /// Which coordination backend this cluster provides.
    pub backend: ClusterBackend,
    /// Per-backend configuration, rendered verbatim into the gateway's
    /// `cluster:` block alongside `kind:`; ignored for `single_node`.
    pub config: JsonMap,
    /// The cluster plugin's source, a cluster-scoped `MCPGPlugin`.
    pub plugin_ref: Option<LocalObjectReference>,
    /// Secret keys surfaced to the gateway as configuration values.
    pub credential_refs: Vec<ClusterCredentialRef>,
    /// When set, the operator provisions a NATS coordinator itself.
    pub managed: Option<ManagedCoordinator>,
}

/// A self-provisioned NATS JetStream coordinator.
#[derive(Clone, Debug, Default, PartialEq)]
pub struct ManagedCoordinator {
    /// NATS server image; `DEFAULT_MANAGED_NATS_IMAGE` when unset.
    pub image: Option<String>,
    pub storage: ManagedStorage,
    /// In-cluster TLS through cert-manager.
    pub tls: Option<ManagedCoordinatorTls>,
    /// Requested NATS replica count; rendering caps it at 1.
    pub replicas: Option<u8>,
    pub resources: Option<GatewayResourceRequirements>,
}

/// JetStream file-store volume of a managed coordinator.
#[derive(Clone, Debug, Default, PartialEq, Eq)]
pub struct ManagedStorage {
    /// Volume size; `DEFAULT_MANAGED_STORAGE_SIZE` when unset.
    pub size: Option<String>,
    pub storage_class_name: Option<String>,
}

/// Managed-coordinator TLS.
#[derive(Clone, Debug, Default, PartialEq, Eq)]
pub struct ManagedCoordinatorTls {
    /// The cert-manager issuer; plaintext when unset.
    pub issuer_ref: Option<ManagedIssuerRef>,
}

/// Reference to a cert-manager `Issuer` or `ClusterIssuer`.
#[derive(Clone, Debug, PartialEq, Eq)]
pub struct ManagedIssuerRef {
    pub name: String,
    /// `Issuer` or `ClusterIssuer`.
    pub kind: String,
    pub group: String,
}

/// The issuer kind when none is given.
pub fn default_issuer_kind() -> (r: String)
    ensures
        r@ == "Issuer"@,
{
    "Issuer".to_owned()
}

/// The issuer API group when none is given.
pub fn default_issuer_group() -> (r: String)
    ensures
        r@ == "cert-manager.io"@,
{
    "cert-manager.io".to_owned()
}

impl Default for ManagedIssuerRef {
    fn default() -> (r: Self)
        ensures
            r.name@ == ""@,
            r.kind@ == "Issuer"@,
            r.group@ == "cert-manager.io"@,
    {
        ManagedIssuerRef {
            name: "".to_owned(),
            kind: default_issuer_kind(),
            group: default_issuer_group(),
        }
    }
}

/// A backend credential projected into bound gateway pods.
#[derive(Clone, Debug, Default, PartialEq, Eq)]
pub struct ClusterCredentialRef {
    pub name: String,
    pub secret_name: String,
    /// Key within the Secret; defaults to `name`.
    pub key: Option<String>,
}

/// Observed state of a coordination-backend binding.
#[derive(Clone, Debug, Default, PartialEq)]
pub struct MCPGClusterStatus {
    pub conditions: Vec<Condition>,
    pub observed_generation: Option<i64>,
    pub plugin_id: Option<String>,
    pub bound_gateways: Option<i64>,
    pub config_hash: Option<String>,
    pub managed_ready: Option<bool>,
    pub nats_ready_replicas: Option<i32>,
    pub coordination_secret: Option<String>,
    pub last_reconcile_time: Option<Timestamp>,
}

/// The backend a cluster effectively provides: NATS when managed,
/// whatever `backend` says otherwise.
pub open spec fn effective_backend_of(s: MCPGClusterSpec) -> ClusterBackend {
    if s.managed is Some {
        ClusterBackend::Nats
    } else {
        s.backend
    }
}

/// A managed coordinator asks for cert-manager TLS: its issuer name has a
/// character that is not white space (so it is not empty once trimmed).
pub open spec fn managed_tls_of(s: MCPGClusterSpec) -> bool {
    match s.managed {
        Some(m) => match m.tls {
            Some(t) => match t.issuer_ref {
                Some(r) => exists|i: int| 0 <= i < r.name@.len() && !is_white_space(#[trigger] r.name@[i]),
                None => false,
            },
            None => false,
        },
        None => false,
    }
}

/// `${env.<name>}`: a reference the gateway resolves from its environment.
pub open spec fn env_ref(name: Seq<char>) -> Seq<char> {
    "${env."@ + name + "}"@
}

/// The URL a gateway dials to reach a managed coordinator.
pub open spec fn managed_server_url(tls: bool, cluster: Seq<char>, namespace: Seq<char>) -> Seq<char> {
    (if tls {
        "tls"@
    } else {
        "nats"@
    }) + "://"@ + cluster + "-nats"@ + "."@ + namespace + ".svc.cluster.local:"@ + decimal(
        MANAGED_NATS_CLIENT_PORT as int,
    )
}

/// The entries of the managed `cluster:` block that do not depend on TLS.
pub open spec fn managed_block_common(tls: bool, cluster: Seq<char>, namespace: Seq<char>) -> Seq<
    (Seq<char>, Json),
> {
    seq![
        ("kind"@, Json::Str("nats"@)),
        ("servers"@, Json::Array(seq![Json::Str(managed_server_url(tls, cluster, namespace))])),
        ("state_encryption_key_env"@, Json::Str(MANAGED_STATE_KEY_ENV@)),
        ("auth"@, Json::Object(seq![("method"@, Json::Str("token"@)), ("token"@, Json::Str(env_ref(MANAGED_NATS_TOKEN_ENV@)))])),
        ("node"@, Json::Object(seq![("id"@, Json::Str(env_ref(MANAGED_NODE_ID_ENV@)))])),
        ("jetstream"@, Json::Object(seq![("replicas"@, Json::Number("1"@)), ("storage"@, Json::Str("file"@))])),
    ]
}

/// The `cluster:` block of a managed NATS coordinator. With TLS it
/// requires TLS and trusts the CA from the environment; plaintext, it
/// relaxes the gateway's transport guard and does not require TLS.
pub open spec fn managed_block_model(tls: bool, cluster: Seq<char>, namespace: Seq<char>) -> Json {
    let common = managed_block_common(tls, cluster, namespace);
    if tls {
        Json::Object(common.push(("tls"@, Json::Object(seq![("require_tls"@, Json::Bool(true)), ("ca_cert"@, Json::Str(env_ref(MANAGED_NATS_CA_ENV@)))]))))
    } else {
        Json::Object(common.push(("allow_insecure_transport"@, Json::Bool(true))).push(("tls"@, Json::Object(seq![("require_tls"@, Json::Bool(false))]))))
    }
}

/// `base` with each entry of `extra` bound in turn.
pub open spec fn insert_all(base: Seq<(Seq<char>, Json)>, extra: Seq<(Seq<char>, Json)>) -> Seq<
    (Seq<char>, Json),
>
    decreases extra.len(),
{
    if extra.len() == 0 {
        base
    } else {
        obj_insert(insert_all(base, extra.drop_last()), extra.last().0, extra.last().1)
    }
}

/// The `cluster:` block of a non-managed cluster: `kind:` the backend's
/// kind and, unless the backend is `single_node`, every other
/// configuration entry flattened beside it (a configured `kind` does not
/// replace the backend's).
pub open spec fn cluster_block_model(b: ClusterBackend, config: Seq<(Seq<char>, Json)>) -> Json {
    let kind = Json::Str(backend_config_kind(b));
    let base = seq![("kind"@, kind)];
    if b is SingleNode {
        Json::Object(base)
    } else {
        Json::Object(obj_insert(insert_all(base, config), "kind"@, kind))
    }
}

/// The configuration opts out of the transport guard.
pub open spec fn opted_out_of_transport_guard(config: Seq<(Seq<char>, Json)>) -> bool {
    match obj_get(config, "allow_insecure_transport"@) {
        Some(v) => json_as_bool(v) == Some(true),
        None => false,
    }
}

/// Why a coordinator would run over a plaintext transport, when it would
/// and the configuration does not opt out.
pub open spec fn insecure_transport_model(b: ClusterBackend, config: Seq<(Seq<char>, Json)>) -> Option<
    Seq<char>,
> {
    if b is SingleNode || opted_out_of_transport_guard(config) {
        None
    } else {
        match b {
            ClusterBackend::Redis => match obj_get(config, "url"@) {
                Some(Json::Str(u)) => if has_prefix(trim_start_by(u, white_space()), "redis://"@) {
                    Some("the redis `url` uses the plaintext `redis://` scheme (use `rediss://`)"@)
                } else {
                    None
                },
                _ => None,
            },
            ClusterBackend::Nats => match obj_get(config, "tls"@) {
                Some(t) => if json_get(t, "require_tls"@) == Some(Json::Bool(false)) {
                    Some("nats `tls.require_tls` is set to `false` (plaintext)"@)
                } else {
                    None
                },
                None => None,
            },
            ClusterBackend::SingleNode => None,
        }
    }
}


/// Binding the entries of `extra` in turn: a key of `extra` reads its
/// value there, any other key reads what it read in `base`.
pub proof fn lemma_insert_all(base: Seq<(Seq<char>, Json)>, extra: Seq<(Seq<char>, Json)>, k: Seq<char>)
    requires
        keys_distinct(base),
        keys_distinct(extra),
    ensures
        keys_distinct(insert_all(base, extra)),
        obj_get(insert_all(base, extra), k) == if has_key(extra, k) {
            obj_get(extra, k)
        } else {
            obj_get(base, k)
        },
    decreases extra.len(),
{
    if extra.len() > 0 {
        let init = extra.drop_last();
        let e = extra.last();
        let n = extra.len() - 1;
        assert(keys_distinct(init)) by {
            assert forall|a: int, b: int|
                0 <= a < init.len() && 0 <= b < init.len() && a != b implies init[a].0 != init[b].0 by {
                assert(init[a] == extra[a] && init[b] == extra[b]);
            }
        }
        lemma_insert_all(base, init, k);
        lemma_obj_insert(insert_all(base, init), e.0, e.1, k);
        if k == e.0 {
            lemma_obj_get_at(extra, n);
        } else {
            if has_key(init, k) {
                let d = choose|i: int| 0 <= i < init.len() && #[trigger] init[i].0 == k;
                assert(extra[d] == init[d]);
                lemma_obj_get_at(extra, d);
                lemma_obj_get_at(init, d);
            }
            if has_key(extra, k) {
                let d = choose|i: int| 0 <= i < extra.len() && #[trigger] extra[i].0 == k;
                assert(d != n);
                assert(init[d] == extra[d]);
            }
        }
    }
}

/// Configuration keys pass into a non-`single_node` block verbatim: `kind`
/// reads the backend's kind whatever is configured, every other key of the
/// configuration reads its configured value, and no other key is present.
pub proof fn lemma_cluster_block_passes_config_through(
    b: ClusterBackend,
    config: Seq<(Seq<char>, Json)>,
    k: Seq<char>,
)
    requires
        !(b is SingleNode),
        keys_distinct(config),
    ensures
        json_get(cluster_block_model(b, config), k) == if k == "kind"@ {
            Some(Json::Str(backend_config_kind(b)))
        } else if has_key(config, k) {
            obj_get(config, k)
        } else {
            None
        },
{
    let kind = Json::Str(backend_config_kind(b));
    let base = seq![("kind"@, kind)];
    lemma_insert_all(base, config, k);
    lemma_obj_insert(insert_all(base, config), "kind"@, kind, k);
    if k != "kind"@ && !has_key(config, k) {
        assert(!has_key(base, k));
    }
}

/// A `single_node` block carries `kind` alone, whatever is configured.
pub proof fn lemma_single_node_block_drops_config(config: Seq<(Seq<char>, Json)>)
    ensures
        cluster_block_model(ClusterBackend::SingleNode, config) == Json::Object(
            seq![("kind"@, Json::Str("single_node"@))],
        ),
{
}

/// The block rendered for a managed coordinator passes the transport
/// guard: plaintext, it opts out; with TLS, it requires TLS.
pub proof fn lemma_managed_block_passes_transport_guard(
    tls: bool,
    cluster: Seq<char>,
    namespace: Seq<char>,
    b: ClusterBackend,
)
    ensures
        managed_block_model(tls, cluster, namespace) matches Json::Object(e)
            && insecure_transport_model(b, e) is None,
{
    reveal_strlit("kind");
    reveal_strlit("servers");
    reveal_strlit("state_encryption_key_env");
    reveal_strlit("auth");
    reveal_strlit("node");
    reveal_strlit("jetstream");
    reveal_strlit("tls");
    reveal_strlit("allow_insecure_transport");
    reveal_strlit("require_tls");
    reveal_strlit("ca_cert");
    reveal_strlit("url");
    let common = managed_block_common(tls, cluster, namespace);
    assert("kind"@[0] != "auth"@[0]);
    assert("kind"@[0] != "node"@[0]);
    assert("auth"@[0] != "node"@[0]);
    assert("state_encryption_key_env"@[0] != "allow_insecure_transport"@[0]);
    assert forall|i: int| 0 <= i < common.len() implies common[i].0 != "tls"@ && common[i].0
        != "allow_insecure_transport"@ && common[i].0 != "url"@ by {
        assert(common[i].0.len() != 3 || common[i].0 =~= "kind"@ || common[i].0 =~= "auth"@
            || common[i].0 =~= "node"@);
    }
    assert(keys_distinct(common)) by {
        assert forall|a: int, b: int|
            0 <= a < common.len() && 0 <= b < common.len() && a != b implies common[a].0
            != common[b].0 by {
            assert(common[a].0.len() != common[b].0.len() || common[a].0[0] != common[b].0[0]);
        }
    }
    if tls {
        let t = seq![("require_tls"@, Json::Bool(true)), ("ca_cert"@, Json::Str(env_ref(MANAGED_NATS_CA_ENV@)))];
        let e = common.push(("tls"@, Json::Object(t)));
        assert(keys_distinct(e)) by {
            assert forall|a: int, b: int|
                0 <= a < e.len() && 0 <= b < e.len() && a != b implies e[a].0 != e[b].0 by {
                if a < common.len() && b < common.len() {
                    assert(e[a] == common[a] && e[b] == common[b]);
                } else if a < common.len() {
                    assert(e[a] == common[a]);
                } else {
                    assert(e[b] == common[b]);
                }
            }
        }
        assert("tls"@[0] != "url"@[0]);
        assert("tls"@.len() != "allow_insecure_transport"@.len());
        assert forall|i: int| 0 <= i < e.len() implies e[i].0 != "allow_insecure_transport"@ && e[i].0 != "url"@ by {
            if i < common.len() {
                assert(e[i] == common[i]);
            }
        }
        assert(!has_key(e, "allow_insecure_transport"@));
        assert(!has_key(e, "url"@));
        lemma_obj_get_at(e, 6);
        assert("require_tls"@.len() != "ca_cert"@.len());
        assert(keys_distinct(t));
        lemma_obj_get_at(t, 0);
        assert(managed_block_model(tls, cluster, namespace) == Json::Object(e));
    } else {
        let f = common.push(("allow_insecure_transport"@, Json::Bool(true)));
        let e = f.push(("tls"@, Json::Object(seq![("require_tls"@, Json::Bool(false))])));
        assert(keys_distinct(e)) by {
            assert forall|a: int, b: int|
                0 <= a < e.len() && 0 <= b < e.len() && a != b implies e[a].0 != e[b].0 by {
                if a < common.len() && b < common.len() {
                    assert(e[a] == common[a] && e[b] == common[b]);
                } else if a < common.len() {
                    assert(e[a] == common[a]);
                } else if b < common.len() {
                    assert(e[b] == common[b]);
                }
            }
        }
        lemma_obj_get_at(e, 6);
        assert(managed_block_model(tls, cluster, namespace) == Json::Object(e));
    }
}

/// `${env.<name>}`.
fn env_reference(name: &str) -> (r: String)
    ensures
        r@ == env_ref(name@),
{
    let mut r = "${env.".to_owned();
    r.append(name);
    r.append("}");
    r
}

impl MCPGClusterSpec {
    /// The backend this cluster effectively provides: a managed
    /// coordinator is always NATS.
    pub fn effective_backend(&self) -> (r: ClusterBackend)
        ensures
            r == effective_backend_of(*self),
    {
        if self.managed.is_some() {
            ClusterBackend::Nats
        } else {
            self.backend
        }
    }

    /// True when the cluster resolves to the in-process coordinator (never
    /// for a managed cluster).
    pub fn is_effectively_single_node(&self) -> (r: bool)
        ensures
            r == (effective_backend_of(*self) is SingleNode),
    {
        self.effective_backend().is_single_node()
    }

    /// Rendered replica count of a managed coordinator: the requested count
    /// clamped to 1, since only single-node JetStream is rendered.
    pub fn managed_nats_replicas(&self) -> (r: Option<i32>)
        ensures
            r == if self.managed is Some {
                Some(1i32)
            } else {
                None::<i32>
            },
    {
        match &self.managed {
            Some(_) => Some(1),
            None => None,
        }
    }

    /// True when a managed coordinator requested more replicas than are
    /// rendered.
    pub fn managed_replicas_capped(&self) -> (r: bool)
        ensures
            r == (self.managed matches Some(m) && m.replicas matches Some(n) && n > 1),
    {
        match &self.managed {
            Some(m) => match m.replicas {
                Some(n) => n > 1,
                None => false,
            },
            None => false,
        }
    }

    /// The gateway `cluster:` block of a non-managed cluster: `kind:` and,
    /// unless the backend is `single_node`, the configuration flattened
    /// beside it. Both the cluster and the gateway controller render it
    /// here, so the two never diverge.
    pub fn render_cluster_block(&self) -> (r: JsonValue)
        ensures
            r.model() == cluster_block_model(self.backend, self.config.model()),
    {
        let mut map = JsonMap::new();
        map.insert("kind".to_owned(), JsonValue::from_str(self.backend.config_kind()));
        let ghost base = seq![("kind"@, Json::Str(backend_config_kind(self.backend)))];
        proof {
            assert(map.model() =~= base);
        }
        if !self.backend.is_single_node() {
            let ghost config = self.config.model();
            let n = self.config.len();
            let mut i: usize = 0;
            proof {
                assert(config.take(0) =~= Seq::<(Seq<char>, Json)>::empty());
            }
            while i < n
                invariant
                    n == config.len(),
                    config == self.config.model(),
                    i <= n,
                    map.model() == insert_all(base, config.take(i as int)),
                decreases n - i,
            {
                let k = self.config.key_at(i).clone();
                let v = self.config.value_at(i).clone();
                map.insert(k, v);
                proof {
                    let t = config.take(i + 1);
                    assert(t.drop_last() =~= config.take(i as int));
                    assert(t.last() == config[i as int]);
                }
                i = i + 1;
            }
            proof {
                assert(config.take(n as int) =~= config);
            }
            map.insert("kind".to_owned(), JsonValue::from_str(self.backend.config_kind()));
        }
        JsonValue::Object(map)
    }

    /// The `cluster:` block of a managed NATS coordinator: a function of the
    /// spec and the naming alone (secrets come from the environment, and
    /// the node id is the gateway pod's name).
    pub fn render_managed_cluster_block(&self, cluster_name: &str, operator_namespace: &str) -> (r:
        JsonValue)
        ensures
            r.model() == managed_block_model(
                managed_tls_of(*self),
                cluster_name@,
                operator_namespace@,
            ),
    {
        proof {
            reveal_strlit("kind");
            reveal_strlit("servers");
            reveal_strlit("state_encryption_key_env");
            reveal_strlit("auth");
            reveal_strlit("node");
            reveal_strlit("jetstream");
            reveal_strlit("tls");
            reveal_strlit("allow_insecure_transport");
            reveal_strlit("method");
            reveal_strlit("token");
            reveal_strlit("replicas");
            reveal_strlit("storage");
            reveal_strlit("require_tls");
            reveal_strlit("ca_cert");
        }
        let tls = self.managed_tls_enabled();
        let scheme = if tls {
            "tls"
        } else {
            "nats"
        };
        let mut url = scheme.to_owned();
        url.append("://");
        let service = managed_nats_service_name(cluster_name);
        url.append(service.as_str());
        url.append(".");
        url.append(operator_namespace);
        url.append(".svc.cluster.local:");
        let port = decimal_string(MANAGED_NATS_CLIENT_PORT as i64);
        url.append(port.as_str());
        assert(url@ =~= managed_server_url(tls, cluster_name@, operator_namespace@));
        let ghost url_model = Json::Str(url@);
        let mut servers: Vec<JsonValue> = Vec::new();
        servers.push(JsonValue::String(url));
        assert(array_model(servers@) =~= seq![url_model]);
        let servers = JsonValue::Array(servers);

        let mut auth = JsonMap::new();
        auth.push_new("method", JsonValue::from_str("token"));
        assert("method"@.len() != "token"@.len());
        auth.push_new("token", JsonValue::String(env_reference(MANAGED_NATS_TOKEN_ENV)));
        assert(auth.model() =~= seq![("method"@, Json::Str("token"@)), ("token"@, Json::Str(env_ref(MANAGED_NATS_TOKEN_ENV@)))]);
        let mut node = JsonMap::new();
        node.push_new("id", JsonValue::String(env_reference(MANAGED_NODE_ID_ENV)));
        assert(node.model() =~= seq![("id"@, Json::Str(env_ref(MANAGED_NODE_ID_ENV@)))]);
        let mut jetstream = JsonMap::new();
        jetstream.push_new("replicas", JsonValue::Number("1".to_owned()));
        assert("replicas"@.len() != "storage"@.len());
        jetstream.push_new("storage", JsonValue::from_str("file"));
        assert(jetstream.model() =~= seq![("replicas"@, Json::Number("1"@)), ("storage"@, Json::Str("file"@))]);

        let mut map = JsonMap::new();
        map.push_new("kind", JsonValue::from_str("nats"));
        assert("kind"@.len() != "servers"@.len());
        map.push_new("servers", servers);
        assert("kind"@.len() != "state_encryption_key_env"@.len());
        assert("servers"@.len() != "state_encryption_key_env"@.len());
        map.push_new("state_encryption_key_env", JsonValue::from_str(MANAGED_STATE_KEY_ENV));
        assert("kind"@[0] != "auth"@[0]);
        assert("servers"@.len() != "auth"@.len());
        assert("state_encryption_key_env"@.len() != "auth"@.len());
        map.push_new("auth", JsonValue::Object(auth));
        assert("kind"@[0] != "node"@[0]);
        assert("servers"@.len() != "node"@.len());
        assert("state_encryption_key_env"@.len() != "node"@.len());
        assert("auth"@[0] != "node"@[0]);
        map.push_new("node", JsonValue::Object(node));
        assert("kind"@.len() != "jetstream"@.len());
        assert("servers"@.len() != "jetstream"@.len());
        assert("state_encryption_key_env"@.len() != "jetstream"@.len());
        assert("auth"@.len() != "jetstream"@.len());
        assert("node"@.len() != "jetstream"@.len());
        map.push_new("jetstream", JsonValue::Object(jetstream));
        let ghost common = managed_block_common(tls, cluster_name@, operator_namespace@);
        assert(map.model() =~= common);
        assert forall|i: int| 0 <= i < common.len() implies common[i].0.len() != 3 by {}
        if tls {
            let mut t = JsonMap::new();
            t.push_new("require_tls", JsonValue::Bool(true));
            assert("require_tls"@.len() != "ca_cert"@.len());
            t.push_new("ca_cert", JsonValue::String(env_reference(MANAGED_NATS_CA_ENV)));
            assert(t.model() =~= seq![("require_tls"@, Json::Bool(true)), ("ca_cert"@, Json::Str(env_ref(MANAGED_NATS_CA_ENV@)))]);
            map.push_new("tls", JsonValue::Object(t));
        } else {
            assert forall|i: int| 0 <= i < common.len() implies common[i].0 != "allow_insecure_transport"@ by {
                assert("state_encryption_key_env"@[0] != "allow_insecure_transport"@[0]);
            }
            map.push_new("allow_insecure_transport", JsonValue::Bool(true));
            let mut t = JsonMap::new();
            t.push_new("require_tls", JsonValue::Bool(false));
            assert(t.model() =~= seq![("require_tls"@, Json::Bool(false))]);
            assert("allow_insecure_transport"@.len() != "tls"@.len());
            map.push_new("tls", JsonValue::Object(t));
        }
        JsonValue::Object(map)
    }

    /// The `cluster:` block: the managed coordinator's when one is
    /// provisioned, the flattened configuration otherwise (where the names
    /// are ignored).
    pub fn render_cluster_block_with(&self, cluster_name: &str, operator_namespace: &str) -> (r:
        JsonValue)
        ensures
            r.model() == if self.managed is Some {
                managed_block_model(managed_tls_of(*self), cluster_name@, operator_namespace@)
            } else {
                cluster_block_model(self.backend, self.config.model())
            },
    {
        if self.managed.is_some() {
            self.render_managed_cluster_block(cluster_name, operator_namespace)
        } else {
            self.render_cluster_block()
        }
    }

    /// Why a non-`single_node` coordinator would run over a plaintext
    /// transport, unless `allow_insecure_transport: true` is configured: a
    /// Redis `url` with the `redis://` scheme (after leading white space),
    /// or NATS with `tls.require_tls: false`.
    pub fn insecure_transport_reason(&self) -> (r: Option<String>)
        ensures
            r is Some <==> insecure_transport_model(self.backend, self.config.model()) is Some,
            r matches Some(m) ==> insecure_transport_model(self.backend, self.config.model())
                == Some(m@),
    {
        if self.backend.is_single_node() {
            return None;
        }
        let opted_out = match self.config.get("allow_insecure_transport") {
            Some(v) => match v.as_bool() {
                Some(b) => b,
                None => false,
            },
            None => false,
        };
        if opted_out {
            return None;
        }
        match self.backend {
            ClusterBackend::Redis => match self.config.get("url") {
                Some(v) => match v.as_str() {
                    Some(u) => {
                        if starts_with(trim_start_white_space(u), "redis://") {
                            Some(
                                "the redis `url` uses the plaintext `redis://` scheme (use `rediss://`)".to_owned(),
                            )
                        } else {
                            None
                        }
                    },
                    None => None,
                },
                None => None,
            },
            ClusterBackend::Nats => match self.config.get("tls") {
                Some(t) => match t.get("require_tls") {
                    Some(x) => match x.as_bool() {
                        Some(false) => Some(
                            "nats `tls.require_tls` is set to `false` (plaintext)".to_owned(),
                        ),
                        _ => None,
                    },
                    None => None,
                },
                None => None,
            },
            ClusterBackend::SingleNode => None,
        }
    }

    /// True when a managed coordinator asks for cert-manager TLS.
    pub fn managed_tls_enabled(&self) -> (r: bool)
        ensures
            r == managed_tls_of(*self),
    {
        match &self.managed {
            Some(m) => match &m.tls {
                Some(t) => match &t.issuer_ref {
                    Some(issuer) => has_non_white_space(issuer.name.as_str()),
                    None => false,
                },
                None => false,
            },
            None => false,
        }
    }
}

/// NATS is plaintext exactly when, with no opt-out, the configuration's
/// `tls` object sets `require_tls` to the boolean `false`: a `tls` object
/// without `require_tls`, with `require_tls: true` or with a non-boolean
/// value, or no `tls` at all, is not reported.
pub proof fn lemma_nats_plaintext_only_when_tls_disabled(config: Seq<(Seq<char>, Json)>)
    ensures
        insecure_transport_model(ClusterBackend::Nats, config) is Some <==> (
        !opted_out_of_transport_guard(config) && obj_get(config, "tls"@) is Some && json_get(
            obj_get(config, "tls"@)->0,
            "require_tls"@,
        ) == Some(Json::Bool(false))),
        forall|t: Json|
            obj_get(config, "tls"@) == Some(t) && json_get(t, "require_tls"@) is None
                ==> insecure_transport_model(ClusterBackend::Nats, config) is None,
        obj_get(config, "tls"@) is None ==> insecure_transport_model(ClusterBackend::Nats, config) is None,
{
}

/// Redis is plaintext exactly when, with no opt-out, its `url` is a string
/// that starts, after leading white space, with `redis://`; a `rediss://`
/// url, a non-string url or no url is not reported.
pub proof fn lemma_redis_plaintext_only_for_redis_scheme(config: Seq<(Seq<char>, Json)>)
    ensures
        insecure_transport_model(ClusterBackend::Redis, config) is Some <==> (
        !opted_out_of_transport_guard(config) && (obj_get(config, "url"@) matches Some(Json::Str(u))
            && has_prefix(trim_start_by(u, white_space()), "redis://"@))),
{
}

/// An opt-out (`allow_insecure_transport: true`) silences the guard for
/// every backend, and `single_node` is never reported.
pub proof fn lemma_opt_out_and_single_node_never_reported(b: ClusterBackend, config: Seq<(Seq<char>, Json)>)
    ensures
        opted_out_of_transport_guard(config) ==> insecure_transport_model(b, config) is None,
        insecure_transport_model(ClusterBackend::SingleNode, config) is None,
{
}

/// A reported reason names the plaintext scheme of the backend.
pub proof fn lemma_reason_names_the_backend(b: ClusterBackend, config: Seq<(Seq<char>, Json)>)
    ensures
        insecure_transport_model(b, config) is Some ==> (b is Redis || b is Nats),
        b is Nats && insecure_transport_model(b, config) is Some ==> insecure_transport_model(b, config)
            == Some("nats `tls.require_tls` is set to `false` (plaintext)"@),
{
}

} // verus!

use mcpg_operator_api::json::{JsonMap, JsonValue};
use mcpg_operator_api::v1alpha1::cluster::{
    managed_coordination_secret_name, managed_nats_config_name, managed_nats_headless_service_name,
    managed_nats_service_name, managed_nats_statefulset_name, managed_nats_tls_secret_name,
    default_issuer_group, default_issuer_kind, ManagedCoordinator, ManagedCoordinatorTls,
    ManagedIssuerRef, MANAGED_NATS_CLIENT_PORT,
};
use mcpg_operator_api::v1alpha1::{
    ClusterBackend, ClusterCredentialRef, MCPGCluster, MCPGClusterSpec,
};

fn s(v: &str) -> JsonValue {
    JsonValue::String(v.to_string())
}

fn str_at<'a>(v: &'a JsonValue, key: &str) -> Option<&'a str> {
    v.get(key).and_then(|x| x.as_str())
}

fn config(entries: &[(&str, JsonValue)]) -> JsonMap {
    let mut m = JsonMap::new();
    for (k, v) in entries {
        m.insert(k.to_string(), v.clone());
    }
    m
}

fn mk(backend: ClusterBackend, cfg: JsonMap) -> MCPGClusterSpec {
    MCPGClusterSpec {
        backend,
        config: cfg,
        plugin_ref: None,
        credential_refs: vec![],
        managed: None,
    }
}

#[test]
fn cluster_crd_metadata_correct() {
    let crd = MCPGCluster::crd();
    assert_eq!(crd.spec.group, "mcpg.dev");
    assert_eq!(crd.spec.scope, "Cluster");
    assert_eq!(crd.spec.names.kind, "MCPGCluster");
    assert_eq!(crd.spec.names.plural, "mcpgclusters");
}

#[test]
fn cluster_crd_short_name_version_and_columns() {
    let crd = MCPGCluster::crd();
    assert_eq!(crd.spec.names.short_names, vec!["mcpgc".to_string()]);
    assert_eq!(crd.spec.versions.len(), 1);
    assert_eq!(crd.spec.versions[0].name, "v1alpha1");
    assert!(crd.spec.versions[0].served && crd.spec.versions[0].storage);
    let cols = &crd.spec.versions[0].additional_printer_columns;
    assert_eq!(cols.len(), 4);
    assert_eq!(cols[0].name, "Backend");
    assert_eq!(cols[0].json_path, ".spec.backend");
    assert_eq!(cols[1].type_, "integer");
}

#[test]
fn backend_defaults_to_single_node() {
    let spec = MCPGClusterSpec::default();
    assert_eq!(spec.backend, ClusterBackend::SingleNode);
    assert!(spec.backend.is_single_node());
    assert_eq!(spec.backend.plugin_id(), None);
}

#[test]
fn backend_kinds_and_plugins() {
    let spec = mk(ClusterBackend::Redis, config(&[("url", s("redis://r:6379"))]));
    assert_eq!(spec.backend, ClusterBackend::Redis);
    assert_eq!(spec.backend.config_kind(), "redis");
    assert_eq!(spec.backend.plugin_id(), Some("dev.mcpg.cluster.redis"));
    assert_eq!(ClusterBackend::Nats.config_kind(), "nats");
    assert_eq!(ClusterBackend::SingleNode.config_kind(), "single_node");
}

#[test]
fn render_cluster_block_flattens_config() {
    let spec = mk(
        ClusterBackend::Redis,
        config(&[("url", s("redis://r:6379")), ("keyPrefix", s("mcpg"))]),
    );
    let block = spec.render_cluster_block();
    assert_eq!(str_at(&block, "kind"), Some("redis"));
    assert_eq!(str_at(&block, "url"), Some("redis://r:6379"));
    // keys pass through verbatim (gateway validates casing).
    assert_eq!(str_at(&block, "keyPrefix"), Some("mcpg"));
}

#[test]
fn render_cluster_block_single_node_drops_config() {
    // single_node ignores any stray config — the gateway's
    // built-in coordinator takes no params.
    let spec = MCPGClusterSpec {
        backend: ClusterBackend::SingleNode,
        config: config(&[("url", s("ignored"))]),
        plugin_ref: None,
        credential_refs: vec![],
        managed: None,
    };
    let block = spec.render_cluster_block();
    assert_eq!(str_at(&block, "kind"), Some("single_node"));
    assert!(
        block.get("url").is_none(),
        "single_node must not carry config"
    );
}

#[test]
fn render_cluster_block_kind_is_the_backend() {
    let spec = mk(ClusterBackend::Nats, config(&[("kind", s("custom")), ("bucket", s("b"))]));
    let block = spec.render_cluster_block();
    assert_eq!(str_at(&block, "kind"), Some("nats"));
    assert_eq!(str_at(&block, "bucket"), Some("b"));
    assert_eq!(block.as_object().unwrap().len(), 2);
}

#[test]
fn all_backends_map_to_a_kind_and_plugin() {
    for b in [ClusterBackend::Redis, ClusterBackend::Nats] {
        assert!(!b.config_kind().is_empty());
        assert!(b.plugin_id().is_some(), "{b:?} must have a cdylib id");
        assert!(!b.is_single_node());
    }
}

#[test]
fn credential_ref_fields() {
    let cr = ClusterCredentialRef {
        name: "password".into(),
        secret_name: "redis-creds".into(),
        key: None,
    };
    assert_eq!(cr.secret_name, "redis-creds");
    assert!(cr.key.is_none());
}

fn managed_spec() -> MCPGClusterSpec {
    MCPGClusterSpec {
        managed: Some(ManagedCoordinator::default()),
        ..Default::default()
    }
}

fn tls_spec(issuer: &str) -> MCPGClusterSpec {
    MCPGClusterSpec {
        managed: Some(ManagedCoordinator {
            tls: Some(ManagedCoordinatorTls {
                issuer_ref: Some(ManagedIssuerRef {
                    name: issuer.to_string(),
                    ..Default::default()
                }),
            }),
            ..Default::default()
        }),
        ..Default::default()
    }
}

#[test]
fn managed_defaults_backend_to_nats() {
    let spec = managed_spec();
    // The raw enum stays at its default; the effective backend
    // is NATS so single-node checks never reject a managed cluster.
    assert_eq!(spec.backend, ClusterBackend::SingleNode);
    assert_eq!(spec.effective_backend(), ClusterBackend::Nats);
    assert!(!spec.is_effectively_single_node());
    assert_eq!(
        spec.effective_backend().plugin_id(),
        Some("dev.mcpg.cluster.nats")
    );
}

#[test]
fn unmanaged_effective_backend_is_backend() {
    let plain = mk(ClusterBackend::Redis, JsonMap::new());
    assert_eq!(plain.effective_backend(), ClusterBackend::Redis);
    assert!(!plain.is_effectively_single_node());
    assert!(MCPGClusterSpec::default().is_effectively_single_node());
}

fn first_server(block: &JsonValue) -> Option<&str> {
    block
        .get("servers")
        .and_then(|v| v.as_array())
        .and_then(|a| a.first())
        .and_then(|v| v.as_str())
}

#[test]
fn managed_block_plaintext_shape() {
    let block = managed_spec().render_managed_cluster_block("prod", "mcpg-system");
    assert_eq!(str_at(&block, "kind"), Some("nats"));
    assert_eq!(
        first_server(&block),
        Some("nats://prod-nats.mcpg-system.svc.cluster.local:4222")
    );
    assert_eq!(str_at(&block, "state_encryption_key_env"), Some("MCPG_CLUSTER_STATE_KEY"));
    let auth = block.get("auth").unwrap();
    assert_eq!(str_at(auth, "method"), Some("token"));
    assert_eq!(str_at(auth, "token"), Some("${env.MCPG_CLUSTER_NATS_TOKEN}"));
    assert_eq!(str_at(block.get("node").unwrap(), "id"), Some("${env.POD_NAME}"));
    assert_eq!(str_at(block.get("jetstream").unwrap(), "storage"), Some("file"));
    // Plaintext in-cluster: transport guard relaxed, no CA.
    assert_eq!(block.get("allow_insecure_transport").and_then(|v| v.as_bool()), Some(true));
    let tls = block.get("tls").unwrap();
    assert_eq!(tls.get("require_tls").and_then(|v| v.as_bool()), Some(false));
    assert!(tls.get("ca_cert").is_none());
}

#[test]
fn managed_block_tls_shape() {
    let spec = tls_spec("mcpg-internal");
    assert!(spec.managed_tls_enabled());
    let block = spec.render_managed_cluster_block("prod", "mcpg-system");
    assert_eq!(
        first_server(&block),
        Some("tls://prod-nats.mcpg-system.svc.cluster.local:4222")
    );
    let tls = block.get("tls").unwrap();
    assert_eq!(tls.get("require_tls").and_then(|v| v.as_bool()), Some(true));
    // CA delivered via env so the block stays pure.
    assert_eq!(str_at(tls, "ca_cert"), Some("${env.MCPG_CLUSTER_NATS_CA}"));
    assert!(block.get("allow_insecure_transport").is_none());
}

#[test]
fn managed_tls_needs_a_non_blank_issuer() {
    assert!(!tls_spec("   ").managed_tls_enabled());
    assert!(!tls_spec("").managed_tls_enabled());
    assert!(tls_spec(" x ").managed_tls_enabled());
    assert!(!managed_spec().managed_tls_enabled());
    let blank = tls_spec("\t");
    let block = blank.render_managed_cluster_block("c", "ns");
    assert_eq!(first_server(&block), Some("nats://c-nats.ns.svc.cluster.local:4222"));
}

#[test]
fn managed_block_flattens_to_valid_nats_plugin_config() {
    // The flattened block must be the shape the nats cluster plugin
    // accepts: servers + node.id + token auth + jetstream.
    let block = managed_spec().render_managed_cluster_block("c", "mcpg-system");
    let obj = block.as_object().unwrap();
    assert!(obj.get("servers").is_some());
    assert_eq!(str_at(block.get("node").unwrap(), "id"), Some("${env.POD_NAME}"));
    assert_eq!(str_at(block.get("auth").unwrap(), "method"), Some("token"));
}

#[test]
fn managed_block_jetstream_single_replica() {
    let block = managed_spec().render_managed_cluster_block("c", "ns");
    let js = block.get("jetstream").unwrap();
    assert_eq!(js.get("replicas"), Some(&JsonValue::Number("1".to_string())));
}

#[test]
fn managed_block_passes_its_own_transport_guard() {
    for spec in [managed_spec(), tls_spec("issuer")] {
        let block = spec.render_managed_cluster_block("c", "ns");
        let cfg = block.as_object().unwrap().clone();
        let as_nats = MCPGClusterSpec {
            backend: ClusterBackend::Nats,
            config: cfg,
            ..Default::default()
        };
        assert_eq!(as_nats.insecure_transport_reason(), None);
    }
}

#[test]
fn managed_replicas_capped_at_one() {
    let spec = MCPGClusterSpec {
        managed: Some(ManagedCoordinator {
            replicas: Some(3),
            ..Default::default()
        }),
        ..Default::default()
    };
    assert_eq!(spec.managed_nats_replicas(), Some(1));
    assert!(spec.managed_replicas_capped());
    let single = managed_spec();
    assert_eq!(single.managed_nats_replicas(), Some(1));
    assert!(!single.managed_replicas_capped());
    // Non-managed → no managed replica count.
    let plain = spec_single();
    assert_eq!(plain.managed_nats_replicas(), None);
}

fn spec_single() -> MCPGClusterSpec {
    mk(ClusterBackend::SingleNode, JsonMap::new())
}

#[test]
fn managed_replicas_one_is_not_capped() {
    let spec = MCPGClusterSpec {
        managed: Some(ManagedCoordinator {
            replicas: Some(1),
            ..Default::default()
        }),
        ..Default::default()
    };
    assert!(!spec.managed_replicas_capped());
    assert!(!spec_single().managed_replicas_capped());
}

#[test]
fn render_dispatches_on_managed() {
    // Non-managed goes through the flatten path…
    let plain = mk(ClusterBackend::Redis, config(&[("url", s("rediss://r:6379"))]));
    assert_eq!(
        str_at(&plain.render_cluster_block_with("x", "mcpg-system"), "kind"),
        Some("redis")
    );
    // …managed goes through the generated-nats path.
    assert_eq!(
        str_at(&managed_spec().render_cluster_block_with("x", "mcpg-system"), "kind"),
        Some("nats")
    );
}

#[test]
fn managed_naming_helpers() {
    assert_eq!(managed_nats_service_name("prod"), "prod-nats");
    assert_eq!(
        managed_nats_headless_service_name("prod"),
        "prod-nats-headless"
    );
    assert_eq!(managed_nats_config_name("prod"), "prod-nats-config");
    assert_eq!(managed_nats_tls_secret_name("prod"), "prod-nats-tls");
    assert_eq!(
        managed_coordination_secret_name("prod"),
        "prod-coordination"
    );
    assert_eq!(managed_nats_statefulset_name("prod"), "prod-nats");
    assert_eq!(MANAGED_NATS_CLIENT_PORT, 4222);
}

#[test]
fn managed_field_optional() {
    let spec = spec_single();
    assert!(spec.managed.is_none());
}

#[test]
fn issuer_ref_defaults() {
    let r = ManagedIssuerRef::default();
    assert_eq!(r.name, "");
    assert_eq!(r.kind, "Issuer");
    assert_eq!(r.group, "cert-manager.io");
    assert_eq!(default_issuer_kind(), "Issuer");
    assert_eq!(default_issuer_group(), "cert-manager.io");
}

#[test]
fn insecure_transport_redis_plaintext() {
    let spec = mk(ClusterBackend::Redis, config(&[("url", s("redis://r:6379"))]));
    assert_eq!(
        spec.insecure_transport_reason().as_deref(),
        Some("the redis `url` uses the plaintext `redis://` scheme (use `rediss://`)")
    );
    let padded = spec_with_url("  \tredis://r:6379");
    assert!(padded.insecure_transport_reason().is_some());
    assert_eq!(spec_with_url("rediss://r:6379").insecure_transport_reason(), None);
    assert_eq!(mk(ClusterBackend::Redis, JsonMap::new()).insecure_transport_reason(), None);
}

fn spec_with_url(url: &str) -> MCPGClusterSpec {
    mk(ClusterBackend::Redis, config(&[("url", s(url))]))
}

#[test]
fn insecure_transport_opt_out_and_single_node() {
    let opted = mk(
        ClusterBackend::Redis,
        config(&[("url", s("redis://r")), ("allow_insecure_transport", JsonValue::Bool(true))]),
    );
    assert_eq!(opted.insecure_transport_reason(), None);
    let not_bool = mk(
        ClusterBackend::Redis,
        config(&[("url", s("redis://r")), ("allow_insecure_transport", s("true"))]),
    );
    assert!(not_bool.insecure_transport_reason().is_some());
    let single = mk(ClusterBackend::SingleNode, config(&[("url", s("redis://r"))]));
    assert_eq!(single.insecure_transport_reason(), None);
}

#[test]
fn insecure_transport_nats_require_tls() {
    let mut tls_off = JsonMap::new();
    tls_off.insert("require_tls".to_string(), JsonValue::Bool(false));
    let spec_off = mk(ClusterBackend::Nats, config(&[("tls", JsonValue::Object(tls_off))]));
    assert_eq!(
        spec_off.insecure_transport_reason().as_deref(),
        Some("nats `tls.require_tls` is set to `false` (plaintext)")
    );
    let mut tls_on = JsonMap::new();
    tls_on.insert("require_tls".to_string(), JsonValue::Bool(true));
    let spec_on = mk(ClusterBackend::Nats, config(&[("tls", JsonValue::Object(tls_on))]));
    assert_eq!(spec_on.insecure_transport_reason(), None);
    assert_eq!(mk(ClusterBackend::Nats, JsonMap::new()).insecure_transport_reason(), None);
}

#[test]
fn cluster_new_names_object() {
    let c = MCPGCluster::new("prod", spec_single());
    assert_eq!(c.metadata.name.as_deref(), Some("prod"));
    assert!(c.status.is_none());
}

#[test]
fn cluster_specs_with_config_in_another_order_are_equal() {
    let mut c1 = JsonMap::new();
    c1.insert("url".to_string(), JsonValue::String("rediss://r:6379".to_string()));
    c1.insert("keyPrefix".to_string(), JsonValue::String("mcpg".to_string()));
    let mut c2 = JsonMap::new();
    c2.insert("keyPrefix".to_string(), JsonValue::String("mcpg".to_string()));
    c2.insert("url".to_string(), JsonValue::String("rediss://r:6379".to_string()));
    let a = MCPGClusterSpec { backend: ClusterBackend::Redis, config: c1, ..Default::default() };
    let b = MCPGClusterSpec { backend: ClusterBackend::Redis, config: c2, ..Default::default() };
    assert_eq!(a, b);
}

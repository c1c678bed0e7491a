use mcpg_operator_api::v1alpha1::{
    AllowedPlugin, MCPGTenant, MCPGTenantSpec, TenantIdentityAttribute, TenantQuotas,
};

fn sample() -> MCPGTenantSpec {
    // A representative tenant spec.
    MCPGTenantSpec {
        namespaces: vec!["payments".into(), "payments-staging".into()],
        allowed_plugins: vec![
            AllowedPlugin {
                name: Some("identity-workload".into()),
                registry_prefix: None,
            },
            AllowedPlugin {
                name: Some("dev.mcpg.policy.cedar".into()),
                registry_prefix: None,
            },
            AllowedPlugin {
                name: None,
                registry_prefix: Some("ghcr.io/mcpg-dev/plugins/".into()),
            },
        ],
        quotas: Some(TenantQuotas {
            max_gateways: Some(5),
            max_plugin_sets: Some(10),
            max_routes: Some(50),
            max_replicas_per_gateway: Some(20),
        }),
        identity_attribute: Some(TenantIdentityAttribute {
            key: "tenant".into(),
            value: "team-payments".into(),
        }),
    }
}

#[test]
fn tenant_crd_metadata_correct() {
    let crd = MCPGTenant::crd();
    assert_eq!(crd.spec.group, "mcpg.dev");
    assert_eq!(crd.spec.scope, "Cluster");
    assert_eq!(crd.spec.names.kind, "MCPGTenant");
    assert_eq!(crd.spec.names.plural, "mcpgtenants");
}

#[test]
fn documented_example_fields() {
    let spec = sample();
    assert_eq!(spec.namespaces, vec!["payments", "payments-staging"]);
    assert_eq!(spec.allowed_plugins.len(), 3);
    let q = spec.quotas.as_ref().unwrap();
    assert_eq!(q.max_gateways, Some(5));
    assert_eq!(q.max_replicas_per_gateway, Some(20));
    let id = spec.identity_attribute.as_ref().unwrap();
    assert_eq!(id.key, "tenant");
    assert_eq!(id.value, "team-payments");
}

#[test]
fn owns_namespace_matches_declared() {
    let spec = sample();
    assert!(spec.owns_namespace("payments"));
    assert!(spec.owns_namespace("payments-staging"));
    assert!(!spec.owns_namespace("fraud"));
}

#[test]
fn overlap_detects_shared_namespace() {
    let a = MCPGTenantSpec {
        namespaces: vec!["a".into(), "shared".into()],
        ..Default::default()
    };
    let b = MCPGTenantSpec {
        namespaces: vec!["shared".into(), "b".into()],
        ..Default::default()
    };
    assert_eq!(a.overlapping_namespaces(&b), vec!["shared"]);
    let c = MCPGTenantSpec {
        namespaces: vec!["c".into()],
        ..Default::default()
    };
    assert!(a.overlapping_namespaces(&c).is_empty());
}

#[test]
fn overlap_is_sorted_deduplicated_and_symmetric() {
    let a = MCPGTenantSpec {
        namespaces: vec!["z".into(), "m".into(), "z".into(), "a".into(), "q".into()],
        ..Default::default()
    };
    let b = MCPGTenantSpec {
        namespaces: vec!["a".into(), "z".into(), "m".into(), "m".into()],
        ..Default::default()
    };
    assert_eq!(a.overlapping_namespaces(&b), vec!["a", "m", "z"]);
    assert_eq!(b.overlapping_namespaces(&a), a.overlapping_namespaces(&b));
}

#[test]
fn empty_allowlist_denies_everything() {
    let spec = MCPGTenantSpec {
        namespaces: vec!["x".into()],
        ..Default::default()
    };
    assert!(!spec.plugin_allowed("identity-workload", "dev.mcpg.identity.workload", None));
}

#[test]
fn wildcard_allowlist_admits_any() {
    let spec = MCPGTenantSpec {
        allowed_plugins: vec![AllowedPlugin {
            name: Some("*".into()),
            registry_prefix: None,
        }],
        ..Default::default()
    };
    assert!(spec.plugin_allowed("anything", "any.id", None));
}

#[test]
fn allowlist_matches_by_resource_name_or_id() {
    let spec = sample();
    // by resource name
    assert!(spec.plugin_allowed("identity-workload", "dev.mcpg.identity.workload", None));
    // by capability id
    assert!(spec.plugin_allowed("cedar-1.0.0-amd64", "dev.mcpg.policy.cedar", None));
    // neither name/id nor prefix → denied
    assert!(!spec.plugin_allowed("rogue", "dev.evil.exfil", Some("docker.io/evil/x:1")));
}

#[test]
fn allowlist_matches_by_registry_prefix() {
    let spec = sample();
    assert!(spec.plugin_allowed(
        "some-resource",
        "dev.third.party",
        Some("ghcr.io/mcpg-dev/plugins/third-party:1.0")
    ));
    // prefix mismatch
    assert!(!spec.plugin_allowed(
        "some-resource",
        "dev.third.party",
        Some("docker.io/mcpg-dev/plugins/third-party:1.0")
    ));
    // no resolved image → no prefix match
    assert!(!spec.plugin_allowed("some-resource", "dev.third.party", None));
}

#[test]
fn allowed_plugin_with_neither_field_matches_nothing() {
    let a = AllowedPlugin::default();
    assert!(!a.matches("x", "y", Some("z")));
}

#[test]
fn empty_registry_prefix_matches_nothing() {
    let a = AllowedPlugin {
        name: None,
        registry_prefix: Some(String::new()),
    };
    assert!(!a.matches("x", "y", Some("anything")));
}

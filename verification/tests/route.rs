use mcpg_operator_api::string_map::StrMap;
use mcpg_operator_api::v1alpha1::{GatewayRef, MCPGRoute, MCPGRouteSpec, RouteMatch, RouteToolRef};

fn sample() -> MCPGRouteSpec {
    // A representative shared-gateway route spec.
    let mut attributes = StrMap::new();
    attributes.insert("tenant".to_string(), "payments".to_string());
    attributes.insert("region".to_string(), "us-east-1".to_string());
    MCPGRouteSpec {
        gateway_ref: GatewayRef {
            name: "shared-gateway".into(),
            namespace: Some("shared-gateway".into()),
        },
        match_: RouteMatch {
            tools: vec![
                RouteToolRef { id: "orders.list".into() },
                RouteToolRef { id: "orders.get".into() },
                RouteToolRef { id: "orders.create".into() },
            ],
        },
        identity_chain: vec!["dev.mcpg.identity.workload".into()],
        policy_chain: vec!["dev.mcpg.policy.cedar".into()],
        audit_chain: vec!["dev.mcpg.builtin.audit".into()],
        attributes,
    }
}

#[test]
fn route_crd_metadata_correct() {
    let crd = MCPGRoute::crd();
    assert_eq!(crd.spec.group, "mcpg.dev");
    assert_eq!(crd.spec.scope, "Namespaced");
    assert_eq!(crd.spec.names.kind, "MCPGRoute");
    assert_eq!(crd.spec.names.plural, "mcpgroutes");
}

#[test]
fn soft_tenancy_example_shape() {
    let spec = sample();
    assert_eq!(spec.gateway_ref.name, "shared-gateway");
    assert_eq!(
        spec.gateway_ref.namespace.as_deref(),
        Some("shared-gateway")
    );
    assert_eq!(spec.match_.tools.len(), 3);
    assert_eq!(spec.match_.tools[0].id, "orders.list");
    assert_eq!(spec.identity_chain, vec!["dev.mcpg.identity.workload"]);
    assert_eq!(spec.tenant(), Some("payments"));
}

#[test]
fn gateway_namespace_defaults_to_route_namespace() {
    let spec = MCPGRouteSpec {
        gateway_ref: GatewayRef {
            name: "g".into(),
            namespace: None,
        },
        ..Default::default()
    };
    assert_eq!(spec.gateway_namespace("my-ns"), "my-ns");
    let spec2 = MCPGRouteSpec {
        gateway_ref: GatewayRef {
            name: "g".into(),
            namespace: Some("shared".into()),
        },
        ..Default::default()
    };
    assert_eq!(spec2.gateway_namespace("my-ns"), "shared");
}

#[test]
fn all_chain_plugins_dedups_across_chains() {
    let spec = MCPGRouteSpec {
        identity_chain: vec!["a".into(), "shared".into()],
        policy_chain: vec!["b".into()],
        audit_chain: vec!["shared".into(), "c".into()],
        ..Default::default()
    };
    assert_eq!(spec.all_chain_plugins(), vec!["a", "b", "c", "shared"]);
}

#[test]
fn all_chain_plugins_sorts_by_code_point() {
    let spec = MCPGRouteSpec {
        identity_chain: vec!["b".into(), "B".into(), "ab".into()],
        policy_chain: vec!["a".into(), "b".into()],
        audit_chain: vec![],
        ..Default::default()
    };
    assert_eq!(spec.all_chain_plugins(), vec!["B", "a", "ab", "b"]);
    assert!(MCPGRouteSpec::default().all_chain_plugins().is_empty());
}

#[test]
fn tenant_none_when_attribute_absent() {
    let spec = MCPGRouteSpec::default();
    assert_eq!(spec.tenant(), None);
}

#[test]
fn tenant_follows_last_binding() {
    let mut spec = sample();
    spec.attributes.insert("tenant".to_string(), "fraud".to_string());
    assert_eq!(spec.tenant(), Some("fraud"));
    assert_eq!(spec.attributes.len(), 2);
}

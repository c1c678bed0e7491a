use mcpg_operator_api::json::JsonValue;
use mcpg_operator_api::v1alpha1::gateway::default_replicas;
use mcpg_operator_api::v1alpha1::{GatewayImage, MCPGGateway, MCPGGatewaySpec, PluginSetRef};

#[test]
fn crd_metadata_has_v1alpha1() {
    let crd = MCPGGateway::crd();
    assert_eq!(crd.spec.group, "mcpg.dev");
    assert!(
        crd.spec.versions.iter().any(|v| v.name == "v1alpha1"),
        "expected v1alpha1 in {:?}",
        crd.spec
            .versions
            .iter()
            .map(|v| &v.name)
            .collect::<Vec<_>>()
    );
}

#[test]
fn gateway_crd_is_namespaced_with_columns() {
    let crd = MCPGGateway::crd();
    assert_eq!(crd.spec.scope, "Namespaced");
    assert_eq!(crd.spec.names.kind, "MCPGGateway");
    assert_eq!(crd.spec.names.plural, "mcpggateways");
    assert_eq!(crd.spec.names.short_names, vec!["mcpgw".to_string()]);
    let cols = &crd.spec.versions[0].additional_printer_columns;
    assert_eq!(cols.len(), 6);
    assert_eq!(cols[4].name, "Available");
    assert_eq!(cols[4].json_path, ".status.conditions[?(@.type=='Available')].status");
}

#[test]
fn plugin_set_ref_optional() {
    let s = MCPGGatewaySpec::default();
    assert!(s.plugin_set_ref.is_none());
    assert_eq!(s.config, JsonValue::Null);
}

#[test]
fn plugin_set_ref_kept_when_set() {
    let s = MCPGGatewaySpec {
        image: GatewayImage::default(),
        replicas: 1,
        config: JsonValue::Null,
        plugin_set_ref: Some(PluginSetRef {
            name: "payments-plugins".into(),
        }),
        ..Default::default()
    };
    let g = MCPGGateway::new("gw", s.clone());
    assert_eq!(g.spec, s);
    assert_eq!(g.spec.plugin_set_ref.unwrap().name, "payments-plugins");
}

#[test]
fn replicas_default_to_one() {
    assert_eq!(default_replicas(), 1);
}

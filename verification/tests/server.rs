use mcpg_operator_api::json::{JsonMap, JsonValue};
use mcpg_operator_api::string_map::StrMap;
use mcpg_operator_api::v1alpha1::{
    MCPGServer, MCPGServerSpec, ServerFederate, ServerGatewayRef,
};

fn minimal() -> MCPGServerSpec {
    MCPGServerSpec {
        image: "ghcr.io/acme/x:1.0.0".into(),
        ..Default::default()
    }
}

fn sample() -> MCPGServerSpec {
    let mut env = StrMap::new();
    env.insert("LOG_LEVEL".to_string(), "info".to_string());
    let mut governance = JsonMap::new();
    governance.insert("minimum_trust".to_string(), JsonValue::String("verified".into()));
    MCPGServerSpec {
        image: "ghcr.io/acme/crm-mcp@sha256:1111111111111111111111111111111111111111111111111111111111111111".into(),
        replicas: Some(2),
        port: Some(9000),
        path: Some("mcp".into()),
        env,
        env_from_secrets: vec!["crm-mcp-secrets".into()],
        federate: Some(ServerFederate {
            gateway_ref: ServerGatewayRef { name: "main".into() },
            tool_prefix: Some("crm.".into()),
            governance: Some(JsonValue::Object(governance)),
            ..Default::default()
        }),
        ..Default::default()
    }
}

#[test]
fn server_crd_metadata_correct() {
    let crd = MCPGServer::crd();
    assert_eq!(crd.spec.group, "mcpg.dev");
    assert_eq!(crd.spec.scope, "Namespaced");
    assert_eq!(crd.spec.names.kind, "MCPGServer");
    assert_eq!(crd.spec.names.plural, "mcpgservers");
}

#[test]
fn example_shape_with_defaults() {
    let spec = sample();
    assert_eq!(spec.replicas(), 2);
    assert_eq!(spec.port(), 9000);
    // A bare path is normalized to `/`-prefixed.
    assert_eq!(spec.path(), "/mcp");
    assert_eq!(spec.env_from_secrets, vec!["crm-mcp-secrets"]);
    let fed = spec.federate.as_ref().unwrap();
    assert_eq!(fed.gateway_ref.name, "main");
    assert_eq!(fed.tool_prefix.as_deref(), Some("crm."));
    assert_eq!(
        fed.governance.as_ref().unwrap().get("minimum_trust").and_then(|v| v.as_str()),
        Some("verified")
    );
    assert_eq!(spec.federation_name("crm"), "crm");
    assert_eq!(
        spec.endpoint("crm", "team-a"),
        "http://crm.team-a.svc.cluster.local:9000/mcp"
    );
}

#[test]
fn minimal_spec_defaults() {
    let spec = minimal();
    assert_eq!(spec.replicas(), 1);
    assert_eq!(spec.port(), 8080);
    assert_eq!(spec.path(), "/mcp");
    assert!(spec.federate.is_none());
    assert!(spec.verify.is_none());
}

#[test]
fn federation_name_override_wins() {
    let mut spec = minimal();
    spec.federate = Some(ServerFederate {
        gateway_ref: ServerGatewayRef {
            name: "main".into(),
        },
        name: Some("crm-prod".into()),
        ..Default::default()
    });
    assert_eq!(spec.federation_name("crm"), "crm-prod");
}

#[test]
fn negative_replicas_clamp_to_zero_and_paths_keep_slash() {
    let mut spec = minimal();
    spec.replicas = Some(-3);
    assert_eq!(spec.replicas(), 0);
    spec.path = Some("/v1/mcp".into());
    assert_eq!(spec.path(), "/v1/mcp");
    spec.path = Some("".into());
    assert_eq!(spec.path(), "/");
    spec.port = Some(-1);
    assert_eq!(spec.endpoint("s", "n"), "http://s.n.svc.cluster.local:-1/");
}

#[test]
fn server_new_has_no_status() {
    let s = MCPGServer::new("crm", minimal());
    assert_eq!(s.metadata.name.as_deref(), Some("crm"));
    assert!(s.status.is_none());
}

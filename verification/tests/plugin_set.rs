use mcpg_operator_api::string_map::StrMap;
use mcpg_operator_api::v1alpha1::plugin_set::default_true;
use mcpg_operator_api::v1alpha1::{MCPGPluginSet, MCPGPluginSetSpec};

#[test]
fn crd_is_namespaced() {
    let crd = MCPGPluginSet::crd();
    assert_eq!(crd.spec.scope, "Namespaced");
}

#[test]
fn entry_flags_default_to_true() {
    assert!(default_true());
}

#[test]
fn capability_grants_keyed_by_plugin_id() {
    let mut grants = StrMap::new();
    grants.insert(
        "dev.mcpg.identity.workload".to_string(),
        vec!["transport_listen".to_string()],
    );
    grants.insert(
        "dev.mcpg.identity.workload".to_string(),
        vec!["transport_listen".to_string(), "audit".to_string()],
    );
    let spec = MCPGPluginSetSpec {
        entries: vec![],
        capability_grants: grants,
    };
    assert_eq!(spec.capability_grants.len(), 1);
    assert_eq!(
        spec.capability_grants.get("dev.mcpg.identity.workload").map(|v| v.len()),
        Some(2)
    );
    assert!(spec.capability_grants.get("other").is_none());
}

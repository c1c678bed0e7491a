use mcpg_operator_api::v1alpha1::revocation_list::default_format_version;
use mcpg_operator_api::v1alpha1::{MCPGRevocationList, MCPGRevocationListSpec, RevocationEntry};
use mcpg_operator_api::CLUSTER_DEFAULT_REVOCATION_LIST;

#[test]
fn revocation_list_crd_metadata_correct() {
    let crd = MCPGRevocationList::crd();
    assert_eq!(crd.spec.group, "mcpg.dev");
    assert_eq!(crd.spec.scope, "Cluster");
    assert_eq!(crd.spec.names.kind, "MCPGRevocationList");
    assert_eq!(crd.spec.names.plural, "mcpgrevocationlists");
}

#[test]
fn version_defaults_to_1() {
    assert_eq!(default_format_version(), 1);
    assert_eq!(CLUSTER_DEFAULT_REVOCATION_LIST, "cluster-default");
}

fn entry(h: &str) -> RevocationEntry {
    RevocationEntry {
        artifact_sha256: h.to_string(),
        reason: "test".into(),
        revoked_at: None,
    }
}

#[test]
fn unique_hashes_normalises_case() {
    let spec = MCPGRevocationListSpec {
        version: 1,
        issued_at: None,
        revocations: vec![
            RevocationEntry {
                artifact_sha256: "ABCD1234".repeat(8),
                reason: "test".into(),
                revoked_at: None,
            },
            RevocationEntry {
                artifact_sha256: "abcd1234".repeat(8),
                reason: "duplicate (different case)".into(),
                revoked_at: None,
            },
        ],
    };
    let unique = spec.unique_hashes();
    assert_eq!(unique.len(), 1);
    assert!(unique.contains(&"abcd1234".repeat(8)));
}

#[test]
fn unique_hashes_sorted_and_distinct() {
    let spec = MCPGRevocationListSpec {
        version: 1,
        issued_at: None,
        revocations: vec![entry("FF00"), entry("0a"), entry("ff00"), entry("0A"), entry("b")],
    };
    assert_eq!(spec.unique_hashes(), vec!["0a".to_string(), "b".to_string(), "ff00".to_string()]);
    assert!(MCPGRevocationListSpec::default().unique_hashes().is_empty());
}

#[test]
fn unique_hashes_only_lowers_ascii() {
    let spec = MCPGRevocationListSpec {
        version: 1,
        issued_at: None,
        revocations: vec![entry("\u{c4}B")],
    };
    assert_eq!(spec.unique_hashes(), vec!["\u{c4}b".to_string()]);
}

use mcpg_operator_api::v1alpha1::plugin::default_signing_key_field;
use mcpg_operator_api::v1alpha1::{
    CosignIdentity, LocalObjectReference, MCPGPlugin, MCPGPluginSpec, OciImageRef, PluginTrust,
    SigningKeyRef,
};

#[test]
fn crd_is_cluster_scoped() {
    let crd = MCPGPlugin::crd();
    assert_eq!(crd.spec.scope, "Cluster");
    assert_eq!(crd.spec.names.kind, "MCPGPlugin");
    assert_eq!(crd.spec.names.plural, "mcpgplugins");
}

#[test]
fn signing_key_field_defaults_to_release_pub() {
    assert_eq!(default_signing_key_field(), "release.pub");
}

#[test]
fn oci_ref_fields() {
    let r = OciImageRef {
        image: "ghcr.io/foo:v1@sha256:abc".into(),
        pull_secret_ref: Some(LocalObjectReference {
            name: "ghcr".into(),
        }),
        mirror_ref: None,
    };
    assert_eq!(r.pull_secret_ref.as_ref().unwrap().name, "ghcr");
    assert!(r.mirror_ref.is_none());
}

#[test]
fn spec_full_clone_equal() {
    let spec = MCPGPluginSpec {
        plugin_id: "dev.mcpg.identity.workload".into(),
        version: "1.2.3".into(),
        plugin_class: "identity_provider".into(),
        oci: OciImageRef {
            image: "ghcr.io/mcpg-dev/source-code/plugins/identity-workload:1.2.3-linux-amd64@sha256:abcd".into(),
            pull_secret_ref: None,
            mirror_ref: None,
        },
        trust: PluginTrust {
            signing_key_ref: SigningKeyRef {
                secret_name: "release-trust".into(),
                key: "release.pub".into(),
            },
            cosign_identity: Some(CosignIdentity {
                certificate_identity_regexp: "^https://github.com/mcpg-dev/".into(),
                oidc_issuer: "https://token.actions.githubusercontent.com".into(),
            }),
            slsa_provenance: None,
        },
    };
    let back = MCPGPlugin::new("p", spec.clone()).spec;
    assert_eq!(spec, back);
}

use mcpg_operator_api::v1alpha1::plugin_mirror::spans_more_than_repository;
use mcpg_operator_api::v1alpha1::{
    MCPGPluginMirror, MCPGPluginMirrorSpec, MirrorAuth, MirrorEndpoint, MirrorRewrite,
    MirrorSecretRef, MirrorService, MirrorUpstream,
};

fn mirror(path_prefix: Option<&str>) -> MCPGPluginMirrorSpec {
    MCPGPluginMirrorSpec {
        endpoint: MirrorEndpoint {
            service: MirrorService {
                namespace: "oci-mirror".into(),
                name: "harbor".into(),
                port: 80,
                path_prefix: path_prefix.map(String::from),
            },
            insecure: true,
        },
        upstream: MirrorUpstream {
            registry: "ghcr.io".into(),
            namespace: "mcpg-dev/source-code".into(),
        },
        auth: None,
        resync_interval: None,
    }
}

#[test]
fn plugin_mirror_crd_metadata_correct() {
    let crd = MCPGPluginMirror::crd();
    assert_eq!(crd.spec.group, "mcpg.dev");
    assert_eq!(crd.spec.scope, "Cluster");
    assert_eq!(crd.spec.names.kind, "MCPGPluginMirror");
    assert_eq!(crd.spec.names.plural, "mcpgpluginmirrors");
}

#[test]
fn rewrite_preserves_repo_tag_and_digest() {
    let m = mirror(Some("/v2/mirror"));
    let out =
        m.rewrite("ghcr.io/mcpg-dev/source-code/plugins/identity-workload:1.2.3@sha256:abcd");
    assert_eq!(
        out,
        MirrorRewrite::Rewritten(
            "harbor.oci-mirror.svc.cluster.local:80/v2/mirror/plugins/identity-workload:1.2.3@sha256:abcd"
                .into()
        )
    );
}

#[test]
fn rewrite_without_path_prefix() {
    let m = mirror(None);
    let out = m.rewrite("ghcr.io/mcpg-dev/source-code/plugins/audit:0.1.0");
    assert_eq!(
        out,
        MirrorRewrite::Rewritten(
            "harbor.oci-mirror.svc.cluster.local:80/plugins/audit:0.1.0".into()
        )
    );
}

#[test]
fn rewrite_normalises_path_prefix_slashes() {
    // Operator may write "v2/mirror/" or "/v2/mirror" — same result.
    for pp in ["v2/mirror", "/v2/mirror", "v2/mirror/", "/v2/mirror/"] {
        let m = mirror(Some(pp));
        let MirrorRewrite::Rewritten(out) = m.rewrite("ghcr.io/mcpg-dev/source-code/p/x:1")
        else {
            panic!("expected rewrite for {pp}");
        };
        assert_eq!(
            out, "harbor.oci-mirror.svc.cluster.local:80/v2/mirror/p/x:1",
            "path_prefix={pp}"
        );
    }
}

#[test]
fn rewrite_not_applicable_for_other_registry() {
    let m = mirror(Some("/v2/mirror"));
    // Different registry.
    assert_eq!(
        m.rewrite("docker.io/library/redis:7"),
        MirrorRewrite::NotApplicable
    );
    // Same registry, different namespace.
    assert_eq!(
        m.rewrite("ghcr.io/other-org/plugins/x:1"),
        MirrorRewrite::NotApplicable
    );
}

#[test]
fn host_is_cluster_local() {
    let m = mirror(None);
    assert_eq!(
        m.endpoint.service.host(),
        "harbor.oci-mirror.svc.cluster.local:80"
    );
}

#[test]
fn rewrite_partial_namespace_is_not_applicable() {
    let mut m = mirror(None);
    m.upstream.namespace = "mcpg-dev".into();
    assert_eq!(
        m.rewrite("ghcr.io/mcpg-dev/source-code/plugins/audit:1.0.0"),
        MirrorRewrite::NotApplicable
    );
    // With the same namespace, a four-segment reference is applicable.
    assert_eq!(
        m.rewrite("ghcr.io/mcpg-dev/plugins/audit:1.0.0"),
        MirrorRewrite::Rewritten("harbor.oci-mirror.svc.cluster.local:80/plugins/audit:1.0.0".into())
    );
    m.upstream.namespace = "mcpg-dev/source".into();
    assert_eq!(
        m.rewrite("ghcr.io/mcpg-dev/source-code/plugins/audit:1.0.0"),
        MirrorRewrite::NotApplicable
    );
}

#[test]
fn rewrite_normalises_upstream_slashes_and_blank_prefix() {
    let mut m = mirror(Some("///"));
    m.upstream.registry = "ghcr.io//".into();
    m.upstream.namespace = "/mcpg-dev/source-code/".into();
    m.endpoint.service.port = 5000;
    assert_eq!(
        m.rewrite("ghcr.io/mcpg-dev/source-code/p/x@sha256:ff"),
        MirrorRewrite::Rewritten("harbor.oci-mirror.svc.cluster.local:5000/p/x@sha256:ff".into())
    );
}

#[test]
fn spec_fields_of_documented_example() {
    let mut spec = mirror(Some("/v2/mirror"));
    spec.auth = Some(MirrorAuth {
        secret_ref: MirrorSecretRef {
            secret_name: "mirror-pull".into(),
            key: Some(".dockerconfigjson".into()),
        },
    });
    spec.resync_interval = Some("1h".into());
    assert_eq!(spec.upstream.registry, "ghcr.io");
    assert_eq!(spec.endpoint.service.port, 80);
    assert_eq!(
        spec.auth.as_ref().unwrap().secret_ref.secret_name,
        "mirror-pull"
    );
    assert_eq!(spec.resync_interval.as_deref(), Some("1h"));
}

#[test]
fn rewrite_stale_namespace_after_upstream_move_is_not_applicable() {
    let m = mirror(None);
    assert_eq!(
        m.rewrite("ghcr.io/mcpg-dev/plugins/audit:1.0.0"),
        MirrorRewrite::NotApplicable
    );
}

#[test]
fn rewrite_single_segment_repository_under_full_namespace() {
    let m = mirror(None);
    assert_eq!(
        m.rewrite("ghcr.io/mcpg-dev/source-code/audit:1.0.0"),
        MirrorRewrite::Rewritten("harbor.oci-mirror.svc.cluster.local:80/audit:1.0.0".into())
    );
    assert!(spans_more_than_repository("source-code/plugins/audit:1.0.0"));
    assert!(!spans_more_than_repository("plugins/audit:1.0.0@sha256:ab"));
    assert!(!spans_more_than_repository("audit"));
}

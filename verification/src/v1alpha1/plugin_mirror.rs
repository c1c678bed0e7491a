//! `MCPGPluginMirror`: an in-cluster OCI mirror for air-gapped plugin
//! pulls, and the rule that rewrites an upstream reference onto it.
//!
//! A mirror is a rewrite rule and an endpoint descriptor: a reference
//! `<registry>/<namespace>/<group>/<name>` is re-homed under the mirror's
//! host (and optional path prefix), keeping the repository path
//! `<group>/<name>`, the tag and the digest pin, so the content-addressed
//! identity that the trust pipeline verifies is unchanged.
use vstd::prelude::*;
use crate::clock::Timestamp;
use crate::conditions::Condition;
use crate::crd::{column, columns_view, defines_kind, definition, named_meta, CustomResourceDefinition, ObjectMeta};
use crate::text::{decimal, decimal_string, has_prefix, is_char, lemma_trim_by_absorbs_ends, strip_prefix, trim_by, trim_char, trim_end_by, trim_end_char};

verus! {

/// The columns that `kubectl get` prints for mirrors.
pub open spec fn plugin_mirror_columns() -> Seq<(Seq<char>, Seq<char>, Seq<char>)> {
    seq![
        ("Upstream"@, "string"@, ".spec.upstream.registry"@),
        ("Reachable"@, "string"@, ".status.reachable"@),
        ("Proxied"@, "integer"@, ".status.proxiedReferences"@),
        ("Age"@, "date"@, ".metadata.creationTimestamp"@),
    ]
}

/// A mirror resource.
#[derive(Clone, Debug, Default, PartialEq)]
pub struct MCPGPluginMirror {
    pub metadata: ObjectMeta,
    pub spec: MCPGPluginMirrorSpec,
    pub status: Option<MCPGPluginMirrorStatus>,
}

impl MCPGPluginMirror {
    /// A mirror named `name` with `spec` and no status.
    pub fn new(name: &str, spec: MCPGPluginMirrorSpec) -> (r: MCPGPluginMirror)
        ensures
            r.metadata.name matches Some(n) && n@ == name@,
            r.metadata.namespace is None,
            r.spec == spec,
            r.status is None,
    {
        MCPGPluginMirror { metadata: named_meta(name), spec, status: None }
    }

    /// The definition the kind is served under.
    pub fn crd() -> (r: CustomResourceDefinition)
        ensures
            defines_kind(
                r,
                "MCPGPluginMirror"@,
                "mcpgpluginmirrors"@,
                "mcpgm"@,
                false,
                plugin_mirror_columns(),
            ),
    {
        let columns = vec![
            column("Upstream", "string", ".spec.upstream.registry"),
            column("Reachable", "string", ".status.reachable"),
            column("Proxied", "integer", ".status.proxiedReferences"),
            column("Age", "date", ".metadata.creationTimestamp"),
        ];
        assert(columns_view(columns@) =~= plugin_mirror_columns());
        definition("MCPGPluginMirror", "mcpgpluginmirrors", "mcpgm", false, columns)
    }
}

/// A mirror: where it lives and which upstream it stands in for.
#[derive(Clone, Debug, Default, PartialEq, Eq)]
pub struct MCPGPluginMirrorSpec {
    pub endpoint: MirrorEndpoint,
    /// Only references under `<registry>/<namespace>/` are rewritten.
    pub upstream: MirrorUpstream,
    pub auth: Option<MirrorAuth>,
    /// Informational re-check cadence, such as `1h`.
    pub resync_interval: Option<String>,
}

/// The in-cluster Service hosting the mirror registry.
#[derive(Clone, Debug, Default, PartialEq, Eq)]
pub struct MirrorEndpoint {
    pub service: MirrorService,
    /// Plain HTTP or self-signed registry.
    pub insecure: bool,
}

/// Service coordinates of the mirror registry.
#[derive(Clone, Debug, Default, PartialEq, Eq)]
pub struct MirrorService {
    pub namespace: String,
    pub name: String,
    pub port: u16,
    /// Path the mirror serves repositories under; leading and trailing
    /// slashes are normalised.
    pub path_prefix: Option<String>,
}

/// The public registry and namespace a mirror stands in for.
#[derive(Clone, Debug, Default, PartialEq, Eq)]
pub struct MirrorUpstream {
    /// Registry host name, such as `ghcr.io`.
    pub registry: String,
    /// The full path between the registry host and the repository, such as
    /// `mcpg-dev/source-code`: every segment before the repository path
    /// (for plugins, `plugins/<name>`). A value that covers only part of
    /// that path does not match: under `mcpg-dev`, the reference
    /// `ghcr.io/mcpg-dev/source-code/plugins/audit:1.0.0` is not
    /// applicable, since what follows the prefix,
    /// `source-code/plugins/audit:1.0.0`, holds more segments than a
    /// repository path `<group>/<name>` has.
    pub namespace: String,
}

/// Mirror pull credentials.
#[derive(Clone, Debug, Default, PartialEq, Eq)]
pub struct MirrorAuth {
    pub secret_ref: MirrorSecretRef,
}

/// A `dockerconfigjson` Secret in the operator namespace.
#[derive(Clone, Debug, Default, PartialEq, Eq)]
pub struct MirrorSecretRef {
    pub secret_name: String,
    pub key: Option<String>,
}

/// Observed state of a mirror.
#[derive(Clone, Debug, Default, PartialEq)]
pub struct MCPGPluginMirrorStatus {
    pub conditions: Vec<Condition>,
    pub observed_generation: Option<i64>,
    pub reachable: Option<bool>,
    pub proxied_references: Option<i64>,
    pub endpoint_host: Option<String>,
    pub last_reconcile_time: Option<Timestamp>,
}

/// Outcome of rewriting an upstream reference through a mirror.
#[derive(Clone, Debug, PartialEq, Eq)]
pub enum MirrorRewrite {
    /// The reference matched the mirror's upstream and was rewritten.
    Rewritten(String),
    /// The reference is not under the mirror's upstream; left untouched.
    NotApplicable,
}

/// `<name>.<namespace>.svc.cluster.local:<port>`.
pub open spec fn host_model(s: MirrorService) -> Seq<char> {
    s.name@ + "."@ + s.namespace@ + ".svc.cluster.local:"@ + decimal(s.port as int)
}

/// The characters `/`.
pub open spec fn slash() -> spec_fn(char) -> bool {
    is_char('/')
}

/// `<registry without trailing slashes>/<namespace without outer slashes>/`.
pub open spec fn upstream_prefix(u: MirrorUpstream) -> Seq<char> {
    trim_end_by(u.registry@, slash()) + "/"@ + trim_by(u.namespace@, slash()) + "/"@
}

/// The path segment a path prefix contributes: empty, or `/` and the
/// prefix without outer slashes.
pub open spec fn path_segment(p: Option<String>) -> Seq<char> {
    match p {
        Some(p) => if trim_by(p@, slash()).len() == 0 {
            Seq::empty()
        } else {
            "/"@ + trim_by(p@, slash())
        },
        None => Seq::empty(),
    }
}

/// Where references under the upstream are re-homed: the mirror host and
/// its path segment.
pub open spec fn mirror_base(m: MCPGPluginMirrorSpec) -> Seq<char> {
    host_model(m.endpoint.service) + path_segment(m.endpoint.service.path_prefix)
}

/// What follows the upstream prefix still holds a segment of the
/// namespace: it has more segments than a repository path `<group>/<name>`
/// has (two or more `/`), so the namespace covers only part of the path.
pub open spec fn spans_namespace_segment(r: Seq<char>) -> bool {
    exists|a: int, b: int|
        #![trigger r[a], r[b]]
        0 <= a < b < r.len() && r[a] == '/' && r[b] == '/'
}

/// The rewritten reference: what follows the upstream prefix in `image`
/// (repository path, tag, digest), under the mirror base; none when
/// `image` is not under the upstream, or when the namespace covers only
/// part of its path.
pub open spec fn rewrite_model(m: MCPGPluginMirrorSpec, image: Seq<char>) -> Option<Seq<char>> {
    let prefix = upstream_prefix(m.upstream);
    if has_prefix(image, prefix) && !spans_namespace_segment(
        image.subrange(prefix.len() as int, image.len() as int),
    ) {
        Some(mirror_base(m) + "/"@ + image.subrange(prefix.len() as int, image.len() as int))
    } else {
        None
    }
}

/// Whether `s` holds two or more `/`: more segments than a repository
/// path has.
pub fn spans_more_than_repository(s: &str) -> (r: bool)
    ensures
        r == spans_namespace_segment(s@),
{
    let n = s.unicode_len();
    let mut count: usize = 0;
    let mut pos: usize = 0;
    let ghost mut first: int = 0;
    let mut i: usize = 0;
    while i < n && count < 2
        invariant
            n == s@.len(),
            i <= n,
            count <= 2,
            count == 0 ==> forall|j: int| 0 <= j < i ==> s@[j] != '/',
            count >= 1 ==> 0 <= first < i && s@[first] == '/',
            count == 1 ==> forall|j: int| 0 <= j < i && j != first ==> s@[j] != '/',
            count == 2 ==> first < pos < i && s@[pos as int] == '/',
        decreases n - i,
    {
        if s.get_char(i) == '/' {
            if count == 0 {
                proof {
                    first = i as int;
                }
            } else {
                pos = i;
            }
            count = count + 1;
        }
        i = i + 1;
    }
    let r = count == 2;
    proof {
        if r {
            assert(s@[first] == '/' && s@[pos as int] == '/');
        } else if spans_namespace_segment(s@) {
            let (a, b) = choose|a: int, b: int|
                #![trigger s@[a], s@[b]]
                0 <= a < b < s@.len() && s@[a] == '/' && s@[b] == '/';
            if count == 1 {
                if a != first {
                    assert(s@[a] != '/');
                } else {
                    assert(s@[b] != '/');
                }
            } else {
                assert(s@[a] != '/');
            }
        }
    }
    r
}

impl MirrorService {
    /// The in-cluster registry host.
    pub fn host(&self) -> (r: String)
        ensures
            r@ == host_model(*self),
    {
        let mut r = self.name.clone();
        r.append(".");
        r.append(self.namespace.as_str());
        r.append(".svc.cluster.local:");
        let port = decimal_string(self.port as i64);
        r.append(port.as_str());
        assert(r@ =~= host_model(*self));
        r
    }
}

impl MCPGPluginMirrorSpec {
    /// Rewrites an upstream reference onto this mirror. What follows
    /// `<registry>/<namespace>/` (the repository path, with its tag and
    /// digest) is re-homed under the mirror host and path prefix; a
    /// reference under another registry or namespace, or one of which the
    /// namespace covers only part of the path, is not applicable.
    pub fn rewrite(&self, image: &str) -> (r: MirrorRewrite)
        ensures
            match r {
                MirrorRewrite::Rewritten(s) => rewrite_model(*self, image@) == Some(s@),
                MirrorRewrite::NotApplicable => rewrite_model(*self, image@) is None,
            },
    {
        let mut prefix = trim_end_char(self.upstream.registry.as_str(), '/').to_owned();
        prefix.append("/");
        prefix.append(trim_char(self.upstream.namespace.as_str(), '/'));
        prefix.append("/");
        assert(prefix@ =~= upstream_prefix(self.upstream));
        let rest = match strip_prefix(image, prefix.as_str()) {
            Some(rest) => rest,
            None => {
                return MirrorRewrite::NotApplicable;
            },
        };
        if spans_more_than_repository(rest) {
            return MirrorRewrite::NotApplicable;
        }
        let mut out = self.endpoint.service.host();
        match &self.endpoint.service.path_prefix {
            Some(p) => {
                let p = trim_char(p.as_str(), '/');
                if p.unicode_len() != 0 {
                    out.append("/");
                    out.append(p);
                }
            },
            None => {},
        }
        out.append("/");
        out.append(rest);
        assert(out@ =~= mirror_base(*self) + "/"@ + image@.subrange(
            upstream_prefix(self.upstream).len() as int,
            image@.len() as int,
        ));
        MirrorRewrite::Rewritten(out)
    }
}

/// A reference under the upstream keeps everything after the upstream
/// prefix (repository path, tag, digest pin) and only changes its base.
pub proof fn lemma_rewrite_keeps_repository_and_pins(m: MCPGPluginMirrorSpec, rest: Seq<char>)
    requires
        !spans_namespace_segment(rest),
    ensures
        rewrite_model(m, upstream_prefix(m.upstream) + rest) == Some(mirror_base(m) + "/"@ + rest),
{
    let prefix = upstream_prefix(m.upstream);
    let image = prefix + rest;
    assert(image.subrange(0, prefix.len() as int) =~= prefix);
    assert(image.subrange(prefix.len() as int, image.len() as int) =~= rest);
}

/// Only a reference under the upstream prefix, of which the namespace
/// covers the whole path up to the repository, is rewritten; any other is
/// left alone.
pub proof fn lemma_rewrite_only_under_upstream(m: MCPGPluginMirrorSpec, image: Seq<char>)
    ensures
        rewrite_model(m, image) is Some <==> has_prefix(image, upstream_prefix(m.upstream))
            && !spans_namespace_segment(
            image.subrange(upstream_prefix(m.upstream).len() as int, image.len() as int),
        ),
{
}

/// A namespace that covers only part of the path does not match: when two
/// or more segment boundaries follow the upstream prefix, the reference is
/// not applicable.
pub proof fn lemma_partial_namespace_not_applicable(
    m: MCPGPluginMirrorSpec,
    rest: Seq<char>,
    a: int,
    b: int,
)
    requires
        0 <= a < b < rest.len(),
        rest[a] == '/',
        rest[b] == '/',
    ensures
        rewrite_model(m, upstream_prefix(m.upstream) + rest) is None,
{
    let prefix = upstream_prefix(m.upstream);
    let image = prefix + rest;
    assert(image.subrange(prefix.len() as int, image.len() as int) =~= rest);
    assert(rest[a] == '/' && rest[b] == '/');
}

} // verus!

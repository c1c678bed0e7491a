//! `MCPGServer`: an in-cluster MCP server workload that the operator
//! provisions and, optionally, federates into a gateway of its namespace.
use vstd::prelude::*;
use crate::clock::Timestamp;
use crate::conditions::Condition;
use crate::crd::{column, columns_view, defines_kind, definition, named_meta, CustomResourceDefinition, ObjectMeta};
use crate::json::JsonValue;
use crate::string_map::StrMap;
use crate::text::{concat2, decimal, decimal_string, has_prefix, starts_with};
use crate::v1alpha1::gateway::{GatewayResourceRequirements, LocalObjectReference};
use crate::v1alpha1::plugin::CosignIdentity;

verus! {

/// The columns that `kubectl get` prints for servers.
pub open spec fn server_columns() -> Seq<(Seq<char>, Seq<char>, Seq<char>)> {
    seq![
        ("Image"@, "string"@, ".spec.image"@),
        ("Gateway"@, "string"@, ".spec.federate.gatewayRef.name"@),
        ("Ready"@, "string"@, ".status.conditions[?(@.type=='Ready')].status"@),
        ("Age"@, "date"@, ".metadata.creationTimestamp"@),
    ]
}

/// A server resource.
#[derive(Clone, Debug, Default, PartialEq)]
pub struct MCPGServer {
    pub metadata: ObjectMeta,
    pub spec: MCPGServerSpec,
    pub status: Option<MCPGServerStatus>,
}

impl MCPGServer {
    /// A server named `name` with `spec` and no status.
    pub fn new(name: &str, spec: MCPGServerSpec) -> (r: MCPGServer)
        ensures
            r.metadata.name matches Some(n) && n@ == name@,
            r.metadata.namespace is None,
            r.spec == spec,
            r.status is None,
    {
        MCPGServer { metadata: named_meta(name), spec, status: None }
    }

    /// The definition the kind is served under.
    pub fn crd() -> (r: CustomResourceDefinition)
        ensures
            defines_kind(r, "MCPGServer"@, "mcpgservers"@, "mcpgs"@, true, server_columns()),
    {
        let columns = vec![
            column("Image", "string", ".spec.image"),
            column("Gateway", "string", ".spec.federate.gatewayRef.name"),
            column("Ready", "string", ".status.conditions[?(@.type=='Ready')].status"),
            column("Age", "date", ".metadata.creationTimestamp"),
        ];
        assert(columns_view(columns@) =~= server_columns());
        definition("MCPGServer", "mcpgservers", "mcpgs", true, columns)
    }
}

/// A server workload: the operator runs the container and, with
/// `federate`, a gateway imports its capabilities.
#[derive(Clone, Debug, Default, PartialEq)]
pub struct MCPGServerSpec {
    /// Image serving MCP over streamable HTTP; digest pins recommended.
    pub image: String,
    /// Replica count; 1 when unset.
    pub replicas: Option<i32>,
    /// Container port of the MCP endpoint; 8080 when unset.
    pub port: Option<i32>,
    /// HTTP path of the MCP endpoint; `/mcp` when unset.
    pub path: Option<String>,
    pub env: StrMap<String>,
    /// Secrets injected as environment variables.
    pub env_from_secrets: Vec<String>,
    pub resources: Option<GatewayResourceRequirements>,
    pub service_account_name: Option<String>,
    pub image_pull_secrets: Vec<LocalObjectReference>,
    /// Cosign keyless verification of the image.
    pub verify: Option<ServerVerify>,
    /// Federation into a gateway of the same namespace.
    pub federate: Option<ServerFederate>,
}

/// Image verification posture.
#[derive(Clone, Debug, Default, PartialEq, Eq)]
pub struct ServerVerify {
    pub cosign_identity: CosignIdentity,
}

/// Gateway federation of a provisioned server.
#[derive(Clone, Debug, Default, PartialEq, Eq)]
pub struct ServerFederate {
    pub gateway_ref: ServerGatewayRef,
    /// Federation name; the server's own name when unset.
    pub name: Option<String>,
    /// Tool-name prefix; `<federation name>.` when unset.
    pub tool_prefix: Option<String>,
    /// Raw `governance` block, passed through verbatim.
    pub governance: Option<JsonValue>,
    /// Raw `import` block.
    pub import: Option<JsonValue>,
    /// Raw `upstream.auth` block.
    pub auth: Option<JsonValue>,
}

/// A gateway in the server's namespace.
#[derive(Clone, Debug, Default, PartialEq, Eq)]
pub struct ServerGatewayRef {
    pub name: String,
}

/// Observed state of a server.
#[derive(Clone, Debug, Default, PartialEq)]
pub struct MCPGServerStatus {
    pub conditions: Vec<Condition>,
    pub observed_generation: Option<i64>,
    pub ready_replicas: Option<i32>,
    /// The in-cluster MCP endpoint the gateway federates.
    pub endpoint: Option<String>,
    pub bound_gateway: Option<String>,
    pub last_reconcile_time: Option<Timestamp>,
}

/// The effective replica count: the given count, 1 when unset, never
/// negative.
pub open spec fn replicas_of(s: MCPGServerSpec) -> i32 {
    let n = match s.replicas {
        Some(n) => n,
        None => 1,
    };
    if n < 0 {
        0
    } else {
        n
    }
}

/// The effective container port: the given port, 8080 when unset.
pub open spec fn port_of(s: MCPGServerSpec) -> i32 {
    match s.port {
        Some(p) => p,
        None => 8080,
    }
}

/// The effective endpoint path: the given path (`/mcp` when unset), with
/// a `/` put in front when it lacks one.
pub open spec fn path_of(s: MCPGServerSpec) -> Seq<char> {
    let p = match s.path {
        Some(p) => p@,
        None => "/mcp"@,
    };
    if has_prefix(p, "/"@) {
        p
    } else {
        "/"@ + p
    }
}

/// `http://<service>.<namespace>.svc.cluster.local:<port><path>`.
pub open spec fn endpoint_of(s: MCPGServerSpec, service: Seq<char>, namespace: Seq<char>) -> Seq<char> {
    "http://"@ + service + "."@ + namespace + ".svc.cluster.local:"@ + decimal(port_of(s) as int) + path_of(s)
}

impl MCPGServerSpec {
    /// Effective replica count.
    pub fn replicas(&self) -> (r: i32)
        ensures
            r == replicas_of(*self),
            r >= 0,
    {
        let n = match self.replicas {
            Some(n) => n,
            None => 1,
        };
        if n < 0 {
            0
        } else {
            n
        }
    }

    /// Effective container port.
    pub fn port(&self) -> (r: i32)
        ensures
            r == port_of(*self),
    {
        match self.port {
            Some(p) => p,
            None => 8080,
        }
    }

    /// Effective MCP endpoint path, always beginning with `/`.
    pub fn path(&self) -> (r: String)
        ensures
            r@ == path_of(*self),
            has_prefix(r@, "/"@),
    {
        proof {
            reveal_strlit("/");
        }
        let p = match &self.path {
            Some(p) => p.as_str(),
            None => "/mcp",
        };
        let r = if starts_with(p, "/") {
            p.to_owned()
        } else {
            concat2("/", p)
        };
        assert(r@.subrange(0, 1) =~= "/"@);
        r
    }

    /// The federation name: `federate.name` when set, the object's name
    /// otherwise.
    pub fn federation_name<'a>(&'a self, object_name: &'a str) -> (r: &'a str)
        ensures
            r@ == match self.federate {
                Some(f) => match f.name {
                    Some(n) => n@,
                    None => object_name@,
                },
                None => object_name@,
            },
    {
        match &self.federate {
            Some(f) => match &f.name {
                Some(n) => n.as_str(),
                None => object_name,
            },
            None => object_name,
        }
    }

    /// The in-cluster MCP endpoint URL of the rendered Service.
    pub fn endpoint(&self, service_name: &str, namespace: &str) -> (r: String)
        ensures
            r@ == endpoint_of(*self, service_name@, namespace@),
    {
        let mut r = "http://".to_owned();
        r.append(service_name);
        r.append(".");
        r.append(namespace);
        r.append(".svc.cluster.local:");
        let port = decimal_string(self.port() as i64);
        r.append(port.as_str());
        let path = self.path();
        r.append(path.as_str());
        assert(r@ =~= endpoint_of(*self, service_name@, namespace@));
        r
    }
}

/// A server's replicas: a count of zero or more is kept exactly (zero
/// scales the server to nothing), an unset count is one, and a negative
/// count is zero.
pub proof fn lemma_replicas_keep_the_requested_count(s: MCPGServerSpec)
    ensures
        forall|n: i32| s.replicas == Some(n) && n >= 0 ==> replicas_of(s) == n,
        forall|n: i32| s.replicas == Some(n) && n < 0 ==> replicas_of(s) == 0,
        s.replicas is None ==> replicas_of(s) == 1,
        replicas_of(s) >= 0,
{
}

/// A server's port is the given one, and 8080 when unset.
pub proof fn lemma_port_is_given_or_8080(s: MCPGServerSpec)
    ensures
        forall|p: i32| s.port == Some(p) ==> port_of(s) == p,
        s.port is None ==> port_of(s) == 8080,
{
}

/// The endpoint names the Service's cluster-local host, then always a `:`
/// and the effective port (`:8080` when none is given), then the effective
/// path.
pub proof fn lemma_endpoint_names_host_port_and_path(s: MCPGServerSpec, service: Seq<char>, namespace: Seq<char>)
    ensures
        ({
            let e = endpoint_of(s, service, namespace);
            let head = "http://"@ + service + "."@ + namespace + ".svc.cluster.local:"@;
            let port = decimal(port_of(s) as int);
            &&& e.len() == head.len() + port.len() + path_of(s).len()
            &&& e.subrange(0, head.len() as int) == head
            &&& e.subrange(head.len() as int, (head.len() + port.len()) as int) == port
            &&& e.subrange((head.len() + port.len()) as int, e.len() as int) == path_of(s)
            &&& has_prefix(path_of(s), "/"@)
        }),
        s.port is None ==> decimal(port_of(s) as int) == "8080"@,
{
    let e = endpoint_of(s, service, namespace);
    let head = "http://"@ + service + "."@ + namespace + ".svc.cluster.local:"@;
    let port = decimal(port_of(s) as int);
    assert(e =~= head + port + path_of(s));
    assert(e.subrange(0, head.len() as int) =~= head);
    assert(e.subrange(head.len() as int, (head.len() + port.len()) as int) =~= port);
    assert(e.subrange((head.len() + port.len()) as int, e.len() as int) =~= path_of(s));
    reveal_strlit("/");
    reveal_strlit("/mcp");
    let p = match s.path {
        Some(p) => p@,
        None => "/mcp"@,
    };
    if !has_prefix(p, "/"@) {
        assert(("/"@ + p).subrange(0, 1) =~= "/"@);
    }
    if s.port is None {
        reveal_strlit("8080");
        reveal_with_fuel(crate::text::nat_digits, 5);
        assert(decimal(8080) =~= "8080"@);
    }
}

} // verus!

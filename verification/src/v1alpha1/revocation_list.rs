//! `MCPGRevocationList`: a cluster-scoped catalogue of revoked plugin
//! artefacts, by SHA-256 of the verified bytes. The operator treats the
//! list named `CLUSTER_DEFAULT_REVOCATION_LIST` as authoritative.
use vstd::prelude::*;
use crate::clock::Timestamp;
use crate::conditions::Condition;
use crate::crd::{column, columns_view, defines_kind, definition, named_meta, CustomResourceDefinition, ObjectMeta};
use crate::ordered::{as_strs, sorted_distinct, sorted_elements, string_views, str_views, strictly_sorted, to_owned_all};
use crate::text::{ascii_lower, lower_all, to_ascii_lowercase};

verus! {

/// The columns that `kubectl get` prints for revocation lists.
pub open spec fn revocation_list_columns() -> Seq<(Seq<char>, Seq<char>, Seq<char>)> {
    seq![
        ("Entries"@, "integer"@, ".status.observedRevocations"@),
        ("Materialised"@, "integer"@, ".status.materialisedNamespaces"@),
        ("Ready"@, "string"@, ".status.conditions[?(@.type=='Ready')].status"@),
        ("Age"@, "date"@, ".metadata.creationTimestamp"@),
    ]
}

/// A revocation list resource.
#[derive(Clone, Debug, Default, PartialEq)]
pub struct MCPGRevocationList {
    pub metadata: ObjectMeta,
    pub spec: MCPGRevocationListSpec,
    pub status: Option<MCPGRevocationListStatus>,
}

impl MCPGRevocationList {
    /// A revocation list named `name` with `spec` and no status.
    pub fn new(name: &str, spec: MCPGRevocationListSpec) -> (r: MCPGRevocationList)
        ensures
            r.metadata.name matches Some(n) && n@ == name@,
            r.metadata.namespace is None,
            r.spec == spec,
            r.status is None,
    {
        MCPGRevocationList { metadata: named_meta(name), spec, status: None }
    }

    /// The definition the kind is served under.
    pub fn crd() -> (r: CustomResourceDefinition)
        ensures
            defines_kind(
                r,
                "MCPGRevocationList"@,
                "mcpgrevocationlists"@,
                "mcpgrl"@,
                false,
                revocation_list_columns(),
            ),
    {
        let columns = vec![
            column("Entries", "integer", ".status.observedRevocations"),
            column("Materialised", "integer", ".status.materialisedNamespaces"),
            column("Ready", "string", ".status.conditions[?(@.type=='Ready')].status"),
            column("Age", "date", ".metadata.creationTimestamp"),
        ];
        assert(columns_view(columns@) =~= revocation_list_columns());
        definition("MCPGRevocationList", "mcpgrevocationlists", "mcpgrl", false, columns)
    }
}

/// The revoked artefacts.
#[derive(Clone, Debug, Default, PartialEq, Eq)]
pub struct MCPGRevocationListSpec {
    /// Format version; `default_format_version()` when absent.
    pub version: u8,
    /// Audit-only issue time.
    pub issued_at: Option<Timestamp>,
    pub revocations: Vec<RevocationEntry>,
}

/// The format version when none is given.
pub fn default_format_version() -> (r: u8)
    ensures
        r == 1,
{
    1
}

/// One revoked artefact.
#[derive(Clone, Debug, Default, PartialEq, Eq)]
pub struct RevocationEntry {
    /// SHA-256 of the verified artefact bytes, 64 hex characters.
    pub artifact_sha256: String,
    pub reason: String,
    pub revoked_at: Option<Timestamp>,
}

/// Observed state of a revocation list.
#[derive(Clone, Debug, Default, PartialEq)]
pub struct MCPGRevocationListStatus {
    pub conditions: Vec<Condition>,
    pub observed_generation: Option<i64>,
    pub observed_revocations: Option<i64>,
    pub materialised_namespaces: Option<i64>,
    pub plugins_blocked: Vec<String>,
    pub content_hash: Option<String>,
    pub last_reconcile_time: Option<Timestamp>,
}

/// The revoked hashes, each in ASCII lower case.
pub open spec fn lowered_hashes(e: Seq<RevocationEntry>) -> Seq<Seq<char>> {
    e.map_values(|x: RevocationEntry| lower_all(x.artifact_sha256@))
}

impl MCPGRevocationListSpec {
    /// The distinct revoked hashes, normalised to lower case, in increasing
    /// order (a set: entries that differ only by case count once).
    pub fn unique_hashes(&self) -> (r: Vec<String>)
        ensures
            string_views(r@) == sorted_elements(lowered_hashes(self.revocations@).to_set()),
            strictly_sorted(string_views(r@)),
            string_views(r@).to_set() == lowered_hashes(self.revocations@).to_set(),
            forall|i: int| 0 <= i < r@.len() ==> lower_all(#[trigger] r@[i]@) == r@[i]@,
    {
        let mut lowered: Vec<String> = Vec::new();
        let n = self.revocations.len();
        let mut i: usize = 0;
        while i < n
            invariant
                n == self.revocations@.len(),
                i <= n,
                lowered@.len() == i,
                forall|j: int|
                    0 <= j < i ==> (#[trigger] lowered@[j])@ == lower_all(
                        self.revocations@[j].artifact_sha256@,
                    ),
            decreases n - i,
        {
            lowered.push(to_ascii_lowercase(self.revocations[i].artifact_sha256.as_str()));
            i = i + 1;
        }
        assert(string_views(lowered@) =~= lowered_hashes(self.revocations@));
        let refs = as_strs(&lowered);
        let sorted = sorted_distinct(&refs);
        let r = to_owned_all(&sorted);
        proof {
            let lh = lowered_hashes(self.revocations@);
            assert forall|i: int| 0 <= i < r@.len() implies lower_all(#[trigger] r@[i]@) == r@[i]@ by {
                let h = string_views(r@)[i];
                assert(string_views(r@).to_set().contains(h));
                assert(lh.to_set().contains(h));
                let j = choose|j: int| 0 <= j < lh.len() && lh[j] == h;
                lemma_lower_case_is_normal(self.revocations@[j].artifact_sha256@);
            }
        }
        r
    }
}

/// Lower-casing is idempotent, so normalised hashes stay as they are
/// when normalised again.
pub proof fn lemma_lower_case_is_normal(h: Seq<char>)
    ensures
        lower_all(lower_all(h)) == lower_all(h),
{
    assert forall|i: int| 0 <= i < h.len() implies ascii_lower(#[trigger] ascii_lower(h[i])) == ascii_lower(h[i]) by {
        let c = h[i];
        if 'A' <= c <= 'Z' {
            let u = (c as u32) + 32;
            assert(97 <= u <= 122);
            let d = u as char;
            assert(d as u32 == u);
            assert(!('A' <= d <= 'Z'));
        }
    }
    assert(lower_all(lower_all(h)) =~= lower_all(h));
}

} // verus!

//! Custom resource types and rules for the `mcpg.dev` operator API.
use vstd::prelude::*;

pub mod clock;
pub mod conditions;
pub mod crd;
pub mod json;
pub mod ordered;
pub mod schema_helpers;
pub mod string_map;
pub mod text;
pub mod v1alpha1;

verus! {

/// API group of every kind.
pub const API_GROUP: &'static str = "mcpg.dev";

/// Name of the cluster-scoped revocation list that the operator treats as
/// authoritative; other revocation lists are advisory.
pub const CLUSTER_DEFAULT_REVOCATION_LIST: &'static str = "cluster-default";

/// Default operator namespace.
pub const DEFAULT_OPERATOR_NAMESPACE: &'static str = "mcpg-system";

} // verus!

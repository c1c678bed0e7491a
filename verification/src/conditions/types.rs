//! Standard condition type names, shared by every resource kind.
use vstd::prelude::*;

verus! {

/// Desired state achieved and observed by all controllers in the
/// dependency chain.
pub const READY: &'static str = "Ready";

/// A reconcile is currently running.
pub const RECONCILING: &'static str = "Reconciling";

/// Last reconcile failed but existing state is still serving.
pub const DEGRADED: &'static str = "Degraded";

/// Applied but waiting for downstream (pods rolling, peer convergence).
pub const PROGRESSING: &'static str = "Progressing";

/// Gateway only: at least one pod ready and serving.
pub const AVAILABLE: &'static str = "Available";

/// Applied state is unrecoverable; manual intervention needed.
pub const FAILED: &'static str = "Failed";

} // verus!

//! Standard condition reasons (CamelCase by Kubernetes convention): a
//! stable vocabulary that clients branch on.
use vstd::prelude::*;

verus! {

/// Reconcile loop converged; used when status flips to `Ready=True`.
pub const RECONCILED: &'static str = "Reconciled";

/// Gateway only: every replica is ready.
pub const ALL_REPLICAS_AVAILABLE: &'static str = "AllReplicasAvailable";

/// At least one pod is ready, but not the full replica set yet.
pub const PODS_READY: &'static str = "PodsReady";

/// Reconcile is making forward progress.
pub const PROGRESSING: &'static str = "Progressing";

/// Recoverable error; the caller should retry.
pub const TRANSIENT_ERROR: &'static str = "TransientError";

/// The spec is broken in a way the operator cannot fix on its own.
pub const PERMANENT_ERROR: &'static str = "PermanentError";

/// A referenced resource exists but is not ready yet.
pub const DEPENDENCY_PENDING: &'static str = "DependencyPending";

/// A referenced resource is missing entirely.
pub const DEPENDENCY_MISSING: &'static str = "DependencyMissing";

/// The admission webhook denied the spec.
pub const ADMISSION_REJECTED: &'static str = "AdmissionRejected";

/// Server-side apply rejected the rendered child resource.
pub const APPLY_FAILED: &'static str = "ApplyFailed";

} // verus!

//! Contract with the custom-resource reconciliation collaborator.
//!
//! The collaborator watches resources, calls a pure derivation function for
//! each observed spec, and patches the derived status back through the
//! cluster API with retry and backoff.  The library supplies only the
//! derivation side of that contract; the watch/patch loop stays outside.

use vstd::prelude::*;

verus! {

/// What a reconciliation pass should converge a resource to: the status to
/// patch onto it, and the finalizer to hold while cleanup is pending, if
/// any.
pub struct DerivedResourceState<S> {
    pub status: S,
    pub finalizer: Option<String>,
}

} // verus!

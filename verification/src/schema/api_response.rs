use vstd::prelude::*;

verus! {

/// The wire-level envelope every JSON endpoint answers with.
///
/// On a well-formed success the payload is present; some deployments
/// violate this and omit it even on success, which the classifier must
/// tolerate (an empty success envelope is always an error, never a default
/// payload).
#[derive(Clone, Debug)]
pub struct ApiResponse<T> {
    /// Either `success` or `failure`.
    pub status: String,
    /// The typed payload; only populated on success.
    pub response: Option<T>,
    /// Explanation of the failure, when the upstream supplied one.
    pub error: Option<String>,
}

} // verus!

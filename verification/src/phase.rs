//! The coarse phase of a pod, and the status patch that announces it to the
//! control plane.

use vstd::prelude::*;

verus! {

/// Lifecycle phase of a pod, as the control plane names it.
#[derive(Clone, Copy, Debug, PartialEq, Eq, Structural)]
pub enum Phase {
    /// The pod is being created.
    Pending,
    /// The pod's containers are executing.
    Running,
    /// The pod has ended with an error.
    Failed,
    /// The pod has ended without an error.
    Succeeded,
    /// The phase cannot be determined.
    Unknown,
}

/// The status patch could not be made.
#[derive(Clone, Copy, Debug, PartialEq, Eq, Structural)]
pub struct StatusError;

/// A JSON document of `serde_json`. Nothing inside it is visible to proofs.
#[verifier::external_type_specification]
#[verifier::external_body]
pub struct ExJsonValue(serde_json::Value);

/// The error type of `anyhow`. Nothing inside it is visible to proofs.
#[verifier::external_type_specification]
#[verifier::external_body]
pub struct ExAnyhowError(anyhow::Error);

/// The status patch that `kubelet::pod::make_status` makes for a phase and a
/// reason.
pub uninterp spec fn status_patch(phase: Phase, reason: Seq<char>) -> serde_json::Value;

/// Calls `kubelet::pod::make_status`, which builds the JSON patch that sets a
/// pod's phase and reason. It is trusted that the call always succeeds and that
/// the document depends on the phase and the reason alone: the function's body
/// is one `Ok` around one JSON literal that holds the two arguments.
#[verifier::external_body]
pub(crate) fn make_status(phase: Phase, reason: &str) -> (made: Result<serde_json::Value, anyhow::Error>)
    ensures
        made is Ok,
        made->Ok_0 == status_patch(phase, reason@),
{
    let phase = match phase {
        Phase::Pending => kubelet::pod::Phase::Pending,
        Phase::Running => kubelet::pod::Phase::Running,
        Phase::Failed => kubelet::pod::Phase::Failed,
        Phase::Succeeded => kubelet::pod::Phase::Succeeded,
        Phase::Unknown => kubelet::pod::Phase::Unknown,
    };
    kubelet::pod::make_status(phase, reason)
}

} // verus!

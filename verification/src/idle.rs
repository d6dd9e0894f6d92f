//! When the daemon may consider itself idle.

use vstd::prelude::*;

verus! {

/// The three facts the idle decision looks at.
#[derive(Debug, Clone, Copy, PartialEq, Eq, Structural)]
pub struct IdleGateInputs {
    /// Client sessions that are connected right now.
    pub live_sessions: usize,
    /// Whether spooled bytes are still waiting to be imported.
    pub pending_spool_bytes: bool,
    /// Background jobs that are running right now.
    pub running_jobs: usize,
}

/// Idle means all three at once: nobody connected, nothing spooled, nothing running.
pub open spec fn nothing_goes_on(inputs: IdleGateInputs) -> bool {
    inputs.live_sessions == 0 && !inputs.pending_spool_bytes && inputs.running_jobs == 0
}

/// Whether the daemon may consider itself idle.
pub fn idle_eligible(inputs: &IdleGateInputs) -> (eligible: bool)
    ensures
        eligible <==> nothing_goes_on(*inputs),
{
    inputs.live_sessions == 0 && !inputs.pending_spool_bytes && inputs.running_jobs == 0
}

/// One session, one running job or one byte in the spool keeps the daemon from being idle, and
/// nothing else does.
pub proof fn law_anything_that_goes_on_prevents_idleness(inputs: IdleGateInputs)
    ensures
        inputs.live_sessions > 0 ==> !nothing_goes_on(inputs),
        inputs.running_jobs > 0 ==> !nothing_goes_on(inputs),
        inputs.pending_spool_bytes ==> !nothing_goes_on(inputs),
        inputs.live_sessions == 0 && inputs.running_jobs == 0 && !inputs.pending_spool_bytes
            ==> nothing_goes_on(inputs),
{
}

} // verus!

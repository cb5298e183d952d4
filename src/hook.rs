use crate::registry::{HushRegistry, ThreadKey};
use vstd::prelude::*;

verus! {

/// What the fault hook does with one fault report.
#[derive(Clone, Copy, Debug, PartialEq, Eq, Structural)]
pub enum HookStep {
    /// The registry is not set up yet: look again shortly.
    Wait,
    /// Hand the report, as it is, to the original reporter.
    Forward,
    /// Drop the report: the faulting thread is hushed.
    Discard,
}

/// The step for a fault on `thread`, given the hushed set once it exists.
pub open spec fn step_of(hushed: Option<Set<ThreadKey>>, thread: ThreadKey) -> HookStep {
    match hushed {
        None => HookStep::Wait,
        Some(s) => if s.contains(thread) {
            HookStep::Discard
        } else {
            HookStep::Forward
        },
    }
}

/// The hushed set of a registry that may not exist yet.
pub open spec fn hushed_of(registry: Option<&HushRegistry>) -> Option<Set<ThreadKey>> {
    match registry {
        None => None,
        Some(r) => Some(r@),
    }
}

/// Decides what the hook does with a fault raised on `thread`.
pub fn hook_step(registry: Option<&HushRegistry>, thread: ThreadKey) -> (r: HookStep)
    ensures
        r == step_of(hushed_of(registry), thread),
{
    match registry {
        None => HookStep::Wait,
        Some(reg) => if reg.is_hushed(thread) {
            HookStep::Discard
        } else {
            HookStep::Forward
        },
    }
}

/// With thread `a` hushed and thread `b` not, a fault on `b` is still
/// reported and a fault on `a` is not.
pub proof fn lemma_isolation(s: Set<ThreadKey>, a: ThreadKey, b: ThreadKey)
    requires
        s.contains(a),
        !s.contains(b),
    ensures
        step_of(Some(s), b) == HookStep::Forward,
        step_of(Some(s), a) == HookStep::Discard,
{
}

/// Once the registry exists, every fault on a thread that is not hushed
/// goes to the original reporter, and before any thread is hushed that
/// holds of every thread.
pub proof fn lemma_unhushed_faults_forwarded(s: Set<ThreadKey>, t: ThreadKey)
    ensures
        !s.contains(t) ==> step_of(Some(s), t) == HookStep::Forward,
        step_of(Some(Set::<ThreadKey>::empty()), t) == HookStep::Forward,
{
}

} // verus!

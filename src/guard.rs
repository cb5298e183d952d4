use crate::registry::{hush_panic, unhush_panic, HushRegistry, ThreadKey};
use vstd::prelude::*;

verus! {

/// Proof that a thread was hushed by `hush_this_test`; releasing it
/// un-hushes the thread it was made for, whichever thread releases it.
pub struct HushGuard {
    thread: ThreadKey,
}

impl View for HushGuard {
    type V = ThreadKey;

    closed spec fn view(&self) -> ThreadKey {
        self.thread
    }
}

impl HushGuard {
    /// The thread that this guard un-hushes when released.
    pub fn thread(&self) -> (r: ThreadKey)
        ensures
            r == self@,
    {
        self.thread
    }

    /// Un-hushes the guard's thread; tells whether it was still hushed.
    pub fn release(self, registry: &mut HushRegistry) -> (r: bool)
        ensures
            final(registry)@ == old(registry)@.remove(self@),
            r == old(registry)@.contains(self@),
    {
        unhush_panic(registry, self.thread)
    }
}

/// Hushes `thread` and returns a guard that un-hushes it on release.
pub fn hush_this_test(registry: &mut HushRegistry, thread: ThreadKey) -> (g: HushGuard)
    ensures
        final(registry)@ == old(registry)@.insert(thread),
        g@ == thread,
{
    hush_panic(registry, thread);
    HushGuard { thread }
}

/// Taking a guard for a thread that is not hushed and then releasing it
/// gives back the hushed set as it was before.
pub proof fn lemma_guard_restores(s: Set<ThreadKey>, t: ThreadKey)
    requires
        !s.contains(t),
    ensures
        s.insert(t).remove(t) == s,
{
    assert(s.insert(t).remove(t) =~= s);
}

} // verus!

use std::collections::HashSet;
use vstd::prelude::*;

verus! {

/// The identity of a thread of execution, as a plain number.
pub type ThreadKey = u64;

/// The set of threads whose fault reports are currently hushed.
pub struct HushRegistry {
    hushed: HashSet<ThreadKey>,
}

impl View for HushRegistry {
    type V = Set<ThreadKey>;

    closed spec fn view(&self) -> Set<ThreadKey> {
        self.hushed@
    }
}

impl HushRegistry {
    /// A registry in which no thread is hushed.
    pub fn new() -> (r: HushRegistry)
        ensures
            r@ == Set::<ThreadKey>::empty(),
    {
        HushRegistry { hushed: HashSet::new() }
    }

    /// Whether `thread` is hushed.
    pub fn is_hushed(&self, thread: ThreadKey) -> (r: bool)
        ensures
            r == self@.contains(thread),
    {
        self.hushed.contains(&thread)
    }
}

/// Hushes `thread`. A thread that is hushed already stays hushed, once.
pub fn hush_panic(registry: &mut HushRegistry, thread: ThreadKey)
    ensures
        final(registry)@ == old(registry)@.insert(thread),
{
    registry.hushed.insert(thread);
}

/// Un-hushes `thread` and tells whether it was hushed just before.
pub fn unhush_panic(registry: &mut HushRegistry, thread: ThreadKey) -> (r: bool)
    ensures
        final(registry)@ == old(registry)@.remove(thread),
        r == old(registry)@.contains(thread),
{
    registry.hushed.remove(&thread)
}

/// Hushing a thread twice leaves it hushed, and one un-hush after that
/// un-hushes it fully; every other thread keeps its state throughout.
pub proof fn lemma_hush_twice_unhush_once(s: Set<ThreadKey>, t: ThreadKey)
    ensures
        s.insert(t).insert(t) == s.insert(t),
        s.insert(t).insert(t).contains(t),
        !s.insert(t).insert(t).remove(t).contains(t),
        forall|u: ThreadKey| u != t ==> (s.insert(t).insert(t).remove(t).contains(u) == s.contains(u)),
{
    assert(s.insert(t).insert(t) =~= s.insert(t));
}

/// An un-hush reports `true` exactly when the thread was hushed right
/// before it, so a second un-hush in a row reports `false`.
pub proof fn lemma_unhush_reports_prior_state(s: Set<ThreadKey>, t: ThreadKey)
    ensures
        !s.remove(t).contains(t),
        !s.insert(t).remove(t).remove(t).contains(t),
{
}

} // verus!

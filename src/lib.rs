//! Hushing of fault reports for chosen threads.
//!
//! The library keeps the set of hushed threads, decides for each fault
//! report whether it is discarded or handed to the original reporter, and
//! pairs a hush with its undo in a scope guard. Threads are named by plain
//! numeric identities; the process-wide hook and lock live with the caller.

pub mod registry;
pub mod hook;
pub mod guard;

pub use guard::{hush_this_test, HushGuard};
pub use hook::{hook_step, HookStep};
pub use registry::{hush_panic, unhush_panic, HushRegistry, ThreadKey};

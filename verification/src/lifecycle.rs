//! Lifecycle owner: the state that holds the supervised child's handle for
//! the application's whole run. It is populated at most once at startup and
//! emptied at most once at shutdown; taking the handle a second time is a
//! no-op, so repeated shutdown signals can never double-terminate.
//!
//! The handle kept here is the child's process identifier; the host pairs it
//! with the operating-system handle it actually kills. The host guards the
//! owner with a mutual-exclusion lock, since its setup and shutdown
//! callbacks may run on different threads.

use vstd::prelude::*;

verus! {

/// The supervised companion-server child, identified by its operating-system
/// process identifier.
#[derive(Clone, Copy, PartialEq, Eq, Debug)]
pub struct SupervisedProcess {
    pub pid: u32,
}

/// Process-wide state owning the possibly absent child handle. Initialized
/// empty; populated at most once; emptied at most once.
pub struct LifecycleOwner {
    pub handle: Option<SupervisedProcess>,
}

/// The owner's state after a take: empty, whatever it held.
pub open spec fn taken(o: LifecycleOwner) -> LifecycleOwner {
    LifecycleOwner { handle: None }
}

/// What a take hands out: exactly what the owner held.
pub open spec fn take_result(o: LifecycleOwner) -> Option<SupervisedProcess> {
    o.handle
}

impl LifecycleOwner {
    /// Creates the owner, before startup runs: it holds no child.
    pub fn new() -> (o: Self)
        ensures
            o.handle is None,
    {
        LifecycleOwner { handle: None }
    }

    /// Stores the launch outcome, performed once at startup — also when the
    /// launch produced no child, so the shutdown path finds a well-defined
    /// empty state.
    pub fn store(&mut self, handle: Option<SupervisedProcess>)
        requires
            old(self).handle is None,
        ensures
            final(self).handle == handle,
    {
        self.handle = handle;
    }

    /// Takes exclusive ownership of the stored handle and clears it. The
    /// caller terminates the returned child, if there is one; a later call
    /// finds the owner empty and gets nothing to terminate. Safe to call
    /// even if nothing was ever stored.
    pub fn take(&mut self) -> (r: Option<SupervisedProcess>)
        ensures
            *final(self) == taken(*old(self)),
            r == take_result(*old(self)),
            final(self).handle is None,
    {
        let r = self.handle;
        self.handle = None;
        r
    }
}

/// Taking twice is safe: the first take empties the owner, so the second
/// take returns nothing — no second termination — and leaves the state as
/// it was.
pub proof fn lemma_take_at_most_once(o: LifecycleOwner)
    ensures
        take_result(taken(o)) is None,
        taken(taken(o)) == taken(o),
{
}

} // verus!
